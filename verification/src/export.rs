//! The JSON and YAML exporters: dialect selection, the fixed rejection
//! message for unknown identifiers, and the wall-clock stamp that every
//! export carries in its metadata.

use vstd::prelude::*;

use crate::dialect::Dialect;
use crate::dialect::dialect_of;
use crate::dialect::export_view;
use crate::dialect::parse_dialect;
use crate::dialect::build_export_pairs;
use crate::dialect::resolve_created;
use crate::error::CardError;
use crate::import::json_nested_i64;
use crate::import::json_object_wf;
use crate::import::json_str_field;
use crate::import::yaml_mapping_wf;
use crate::import::yaml_nested_i64;
use crate::import::yaml_str_field;
use crate::jsontext::export_json_text;
use crate::jsontext::render_export_json;
use crate::record::CharacterRecord;

verus! {

/// The message of an `UnsupportedFormat` error: it names the five accepted
/// identifiers.
pub open spec fn unsupported_format_message() -> Seq<char> {
    "Format not supported, supported formats: 'tavernai', 'sillytavern', 'textgenerationwebui', 'pygmalion', 'aicompanion'"@
}

fn unsupported_format_error() -> (r: CardError)
    ensures
        r matches CardError::UnsupportedFormat(m) && m@ == unsupported_format_message(),
{
    CardError::UnsupportedFormat(
        "Format not supported, supported formats: 'tavernai', 'sillytavern', 'textgenerationwebui', 'pygmalion', 'aicompanion'".to_owned(),
    )
}

/// Relies on `chrono::Utc::now`: the current wall-clock time in milliseconds
/// since the Unix epoch. Nothing is assumed of the value; callers pass it to
/// the pure exporters, which are verified for every stamp.
#[verifier::external_body]
pub fn now_timestamp_millis() -> i64 {
    chrono::Utc::now().timestamp_millis()
}

/// Renders record `character` under dialect `d` as JSON text, stamped with
/// time `now`.
pub fn render_dialect_json(character: &CharacterRecord, d: Dialect, now: i64) -> (r: String)
    ensures
        r@ == export_json_text(export_view(character@, d, now)),
{
    let pairs = build_export_pairs(character, d);
    let created = resolve_created(character, now);
    render_export_json(&pairs, created, now)
}

/// Exports `character` as JSON under the dialect named by `format_type`,
/// stamped with time `now`; an unknown identifier is rejected with
/// `UnsupportedFormat` and the fixed message naming the valid ones.
pub fn export_as_json(character: &CharacterRecord, format_type: &str, now: i64) -> (r: Result<
    String,
    CardError,
>)
    ensures
        (match dialect_of(format_type@) {
            Some(d) => r matches Ok(s) && s@ == export_json_text(export_view(character@, d, now)),
            None => r matches Err(e) && e matches CardError::UnsupportedFormat(m) && m@
                == unsupported_format_message(),
        }),
{
    match parse_dialect(format_type) {
        Some(d) => Ok(render_dialect_json(character, d, now)),
        None => Err(unsupported_format_error()),
    }
}

/// Exports `character` in the neutral superset shape as JSON text, stamped
/// with time `now`. The neutral export cannot fail.
pub fn export_as_neutral_json(character: &CharacterRecord, now: i64) -> (r: String)
    ensures
        r@ == export_json_text(export_view(character@, Dialect::Neutral, now)),
{
    render_dialect_json(character, Dialect::Neutral, now)
}

/// The YAML rendering of a JSON document, as the YAML codec emits it: a
/// function of the JSON text alone.
pub uninterp spec fn yaml_of_json(json: Seq<char>) -> Seq<char>;

/// Whether transcoding a JSON document to YAML succeeds: a function of the
/// JSON text alone.
pub uninterp spec fn yaml_of_json_ok(json: Seq<char>) -> bool;

/// Relies on `serde_json::from_str` and `serde_yaml::to_string`: parses a
/// JSON document and re-emits it as YAML. Both steps are pure, so the result
/// and its success are functions of the JSON text; either step's failure is
/// reported as the error message. The emitted YAML is faithful to the JSON
/// document: it carries the same string under every top-level key and the
/// same integer under every nested key pair, and it is a YAML mapping
/// exactly when the JSON document is an object.
#[verifier::external_body]
fn yaml_from_json(json: &str) -> (r: Result<String, String>)
    ensures
        (match r {
            Ok(y) => yaml_of_json_ok(json@) && y@ == yaml_of_json(json@) && (forall|k: Seq<char>|
                #[trigger] yaml_str_field(y@, k) == json_str_field(json@, k)) && (forall|
                outer: Seq<char>,
                inner: Seq<char>,
            |
                #[trigger] yaml_nested_i64(y@, outer, inner) == json_nested_i64(
                    json@,
                    outer,
                    inner,
                )) && yaml_mapping_wf(y@) == json_object_wf(json@),
            Err(_) => !yaml_of_json_ok(json@),
        }),
{
    match serde_json::from_str::<serde_json::Value>(json) {
        Ok(v) => match serde_yaml::to_string(&v) {
            Ok(y) => Ok(y),
            Err(e) => Err(format!("{}", e)),
        },
        Err(e) => Err(format!("{}", e)),
    }
}

/// The outcome of a YAML export of the JSON document `json`: when the YAML
/// codec accepts the document (which is a function of the document alone),
/// the export succeeds with the YAML rendering, whose top-level strings and
/// nested integers agree with the JSON document under every key; otherwise
/// the export fails with `YamlEmit`.
pub open spec fn yaml_export_outcome(json: Seq<char>, r: Result<String, CardError>) -> bool {
    if yaml_of_json_ok(json) {
        r matches Ok(y) && y@ == yaml_of_json(json) && (forall|k: Seq<char>|
            #[trigger] yaml_str_field(y@, k) == json_str_field(json, k)) && (forall|
            outer: Seq<char>,
            inner: Seq<char>,
        |
            #[trigger] yaml_nested_i64(y@, outer, inner) == json_nested_i64(json, outer, inner))
            && yaml_mapping_wf(y@) == json_object_wf(json)
    } else {
        r matches Err(e) && e matches CardError::YamlEmit(_)
    }
}

/// Exports `character` under dialect `d` as YAML text: the YAML rendering of
/// the dialect's JSON document.
pub fn render_dialect_yaml(character: &CharacterRecord, d: Dialect, now: i64) -> (r: Result<
    String,
    CardError,
>)
    ensures
        yaml_export_outcome(export_json_text(export_view(character@, d, now)), r),
{
    let json = render_dialect_json(character, d, now);
    match yaml_from_json(json.as_str()) {
        Ok(y) => Ok(y),
        Err(m) => Err(CardError::YamlEmit(m)),
    }
}

/// Exports `character` as YAML under the dialect named by `format_type`,
/// stamped with time `now`; an unknown identifier is rejected with
/// `UnsupportedFormat`.
pub fn export_as_yaml(character: &CharacterRecord, format_type: &str, now: i64) -> (r: Result<
    String,
    CardError,
>)
    ensures
        (match dialect_of(format_type@) {
            Some(d) => yaml_export_outcome(export_json_text(export_view(character@, d, now)), r),
            None => r matches Err(e) && e matches CardError::UnsupportedFormat(m) && m@
                == unsupported_format_message(),
        }),
{
    match parse_dialect(format_type) {
        Some(d) => render_dialect_yaml(character, d, now),
        None => Err(unsupported_format_error()),
    }
}

/// Exports `character` in the neutral superset shape as YAML text.
pub fn export_as_neutral_yaml(character: &CharacterRecord, now: i64) -> (r: Result<
    String,
    CardError,
>)
    ensures
        yaml_export_outcome(export_json_text(export_view(character@, Dialect::Neutral, now)), r),
{
    render_dialect_yaml(character, Dialect::Neutral, now)
}

impl CharacterRecord {
    /// Exports this record as JSON under the dialect named by `format_type`,
    /// stamped with the current wall-clock time.
    pub fn export_json(&self, format_type: &str) -> (r: Result<String, CardError>)
        ensures
            (match dialect_of(format_type@) {
                Some(d) => r matches Ok(s) && (exists|t: i64|
                    s@ == export_json_text(export_view(self@, d, t))),
                None => r matches Err(e) && e matches CardError::UnsupportedFormat(m) && m@
                    == unsupported_format_message(),
            }),
    {
        let now = now_timestamp_millis();
        let r = export_as_json(self, format_type, now);
        proof {
            if dialect_of(format_type@) is Some {
                let d = dialect_of(format_type@).unwrap();
                assert(r matches Ok(s) && s@ == export_json_text(export_view(self@, d, now)));
            }
        }
        r
    }

    /// Exports this record in the neutral superset shape as JSON, stamped
    /// with the current wall-clock time.
    pub fn export_neutral_json(&self) -> (r: String)
        ensures
            exists|t: i64| r@ == export_json_text(export_view(self@, Dialect::Neutral, t)),
    {
        let now = now_timestamp_millis();
        let r = export_as_neutral_json(self, now);
        proof {
            assert(r@ == export_json_text(export_view(self@, Dialect::Neutral, now)));
        }
        r
    }

    /// Exports this record as YAML under the dialect named by `format_type`,
    /// stamped with the current wall-clock time.
    pub fn export_yaml(&self, format_type: &str) -> (r: Result<String, CardError>)
        ensures
            (match dialect_of(format_type@) {
                Some(d) => exists|t: i64|
                    yaml_export_outcome(export_json_text(export_view(self@, d, t)), r),
                None => r matches Err(e) && e matches CardError::UnsupportedFormat(m) && m@
                    == unsupported_format_message(),
            }),
    {
        let now = now_timestamp_millis();
        let r = export_as_yaml(self, format_type, now);
        proof {
            if dialect_of(format_type@) is Some {
                let d = dialect_of(format_type@).unwrap();
                assert(yaml_export_outcome(export_json_text(export_view(self@, d, now)), r));
            }
        }
        r
    }

    /// Exports this record in the neutral superset shape as YAML, stamped
    /// with the current wall-clock time.
    pub fn export_neutral_yaml(&self) -> (r: Result<String, CardError>)
        ensures
            exists|t: i64|
                yaml_export_outcome(export_json_text(export_view(self@, Dialect::Neutral, t)), r),
    {
        let now = now_timestamp_millis();
        let r = export_as_neutral_yaml(self, now);
        proof {
            assert(yaml_export_outcome(
                export_json_text(export_view(self@, Dialect::Neutral, now)),
                r,
            ));
        }
        r
    }
}

} // verus!

