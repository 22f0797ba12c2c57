//! Importing a record from a generic JSON or YAML document: each canonical
//! field is resolved through a fallback chain of source key names,
//! first-present wins, and a missing field degrades to the empty string.

use vstd::prelude::*;

use crate::error::CardError;
use crate::record::CharacterRecord;
use crate::record::RecordView;

verus! {

/// The mathematical value of a [`RawFields`]: what the source document
/// carried under each recognised key, or `None` where the key was absent
/// (or did not hold a string, or an integer for `created`).
pub ghost struct RawView {
    pub char_name: Option<Seq<char>>,
    pub name: Option<Seq<char>>,
    pub summary: Option<Seq<char>>,
    pub description: Option<Seq<char>>,
    pub char_persona: Option<Seq<char>>,
    pub personality: Option<Seq<char>>,
    pub world_scenario: Option<Seq<char>>,
    pub scenario: Option<Seq<char>>,
    pub char_greeting: Option<Seq<char>>,
    pub first_mes: Option<Seq<char>>,
    pub example_dialogue: Option<Seq<char>>,
    pub mes_example: Option<Seq<char>>,
    pub created: Option<i64>,
}

/// The view of an optional string.
pub open spec fn opt_str_view(o: Option<String>) -> Option<Seq<char>> {
    match o {
        Some(s) => Some(s@),
        None => None,
    }
}

/// The raw fields a source document carried, before fallback resolution.
pub struct RawFields {
    pub char_name: Option<String>,
    pub name: Option<String>,
    pub summary: Option<String>,
    pub description: Option<String>,
    pub char_persona: Option<String>,
    pub personality: Option<String>,
    pub world_scenario: Option<String>,
    pub scenario: Option<String>,
    pub char_greeting: Option<String>,
    pub first_mes: Option<String>,
    pub example_dialogue: Option<String>,
    pub mes_example: Option<String>,
    pub created: Option<i64>,
}

impl View for RawFields {
    type V = RawView;

    open spec fn view(&self) -> RawView {
        RawView {
            char_name: opt_str_view(self.char_name),
            name: opt_str_view(self.name),
            summary: opt_str_view(self.summary),
            description: opt_str_view(self.description),
            char_persona: opt_str_view(self.char_persona),
            personality: opt_str_view(self.personality),
            world_scenario: opt_str_view(self.world_scenario),
            scenario: opt_str_view(self.scenario),
            char_greeting: opt_str_view(self.char_greeting),
            first_mes: opt_str_view(self.first_mes),
            example_dialogue: opt_str_view(self.example_dialogue),
            mes_example: opt_str_view(self.mes_example),
            created: self.created,
        }
    }
}

/// The first present value of a fallback chain, or the empty string when
/// neither key was present.
pub open spec fn first_present(a: Option<Seq<char>>, b: Option<Seq<char>>) -> Seq<char> {
    match a {
        Some(s) => s,
        None => match b {
            Some(s) => s,
            None => Seq::empty(),
        },
    }
}

/// The record a set of raw fields resolves to: every canonical field takes
/// the first present key of its chain, the imported record carries no image
/// path, and `created_time` is the source's `metadata.created` if any.
pub open spec fn resolve_view(f: RawView) -> RecordView {
    RecordView {
        name: first_present(f.char_name, f.name),
        summary: first_present(f.summary, f.description),
        personality: first_present(f.char_persona, f.personality),
        scenario: first_present(f.world_scenario, f.scenario),
        greeting_message: first_present(f.char_greeting, f.first_mes),
        example_messages: first_present(f.example_dialogue, f.mes_example),
        image_path: None,
        created_time: f.created,
    }
}

fn first_present_string(a: Option<String>, b: Option<String>) -> (r: String)
    ensures
        r@ == first_present(opt_str_view(a), opt_str_view(b)),
{
    match a {
        Some(s) => s,
        None => match b {
            Some(s) => s,
            None => String::new(),
        },
    }
}

/// Resolves raw source fields into a record, applying the fallback chains.
pub fn record_from_fields(f: RawFields) -> (r: CharacterRecord)
    ensures
        r@ == resolve_view(f@),
{
    let RawFields {
        char_name,
        name,
        summary,
        description,
        char_persona,
        personality,
        world_scenario,
        scenario,
        char_greeting,
        first_mes,
        example_dialogue,
        mes_example,
        created,
    } = f;
    CharacterRecord::from_parts(
        first_present_string(char_name, name),
        first_present_string(summary, description),
        first_present_string(char_persona, personality),
        first_present_string(world_scenario, scenario),
        first_present_string(char_greeting, first_mes),
        first_present_string(example_dialogue, mes_example),
        None,
        created,
    )
}

/// The string value at `key` in the top-level JSON object of `text`, if
/// `text` parses as JSON and carries one.
pub uninterp spec fn json_str_field(text: Seq<char>, key: Seq<char>) -> Option<Seq<char>>;

/// The integer at `outer`.`inner` in the top-level JSON object of `text`,
/// if `text` parses as JSON and carries one.
pub uninterp spec fn json_nested_i64(
    text: Seq<char>,
    outer: Seq<char>,
    inner: Seq<char>,
) -> Option<i64>;

/// Whether `text` parses as a JSON document whose top level is an object.
pub uninterp spec fn json_object_wf(text: Seq<char>) -> bool;

/// Relies on `serde_json::from_str` and `serde_json::Value::{get, as_str}`:
/// the string at `key` in the JSON document `text`, a function of the two
/// texts alone; `None` when `text` does not parse, the key is absent, or its
/// value is not a string.
#[verifier::external_body]
fn json_str_at(text: &str, key: &str) -> (r: Option<String>)
    ensures
        r matches Some(s) ==> json_str_field(text@, key@) == Some(s@),
        r is None ==> json_str_field(text@, key@) is None,
{
    let doc: serde_json::Value = serde_json::from_str(text).ok()?;
    Some(doc.get(key)?.as_str()?.to_owned())
}

/// Relies on `serde_json::from_str` and `serde_json::Value::{get, as_i64}`:
/// the integer at `outer`.`inner` in the JSON document `text`, a function of
/// the three texts alone.
#[verifier::external_body]
fn json_i64_at(text: &str, outer: &str, inner: &str) -> (r: Option<i64>)
    ensures
        r == json_nested_i64(text@, outer@, inner@),
{
    let doc: serde_json::Value = serde_json::from_str(text).ok()?;
    doc.get(outer)?.get(inner)?.as_i64()
}

/// Relies on `serde_json::from_str` and `serde_json::Value::is_object`:
/// accepts exactly the texts that parse as a JSON object, and reports the
/// parser's message otherwise.
#[verifier::external_body]
fn json_check_object(text: &str) -> (r: Result<(), String>)
    ensures
        (r is Ok) == json_object_wf(text@),
{
    match serde_json::from_str::<serde_json::Value>(text) {
        Ok(v) => {
            if v.is_object() {
                Ok(())
            } else {
                Err(format!("the document is not a JSON object"))
            }
        },
        Err(e) => Err(format!("{}", e)),
    }
}

/// The raw fields the JSON document `text` carries under the recognised keys.
pub open spec fn json_raw_view(t: Seq<char>) -> RawView {
    RawView {
        char_name: json_str_field(t, "char_name"@),
        name: json_str_field(t, "name"@),
        summary: json_str_field(t, "summary"@),
        description: json_str_field(t, "description"@),
        char_persona: json_str_field(t, "char_persona"@),
        personality: json_str_field(t, "personality"@),
        world_scenario: json_str_field(t, "world_scenario"@),
        scenario: json_str_field(t, "scenario"@),
        char_greeting: json_str_field(t, "char_greeting"@),
        first_mes: json_str_field(t, "first_mes"@),
        example_dialogue: json_str_field(t, "example_dialogue"@),
        mes_example: json_str_field(t, "mes_example"@),
        created: json_nested_i64(t, "metadata"@, "created"@),
    }
}

fn read_json_fields(text: &str) -> (f: RawFields)
    ensures
        f@ == json_raw_view(text@),
{
    RawFields {
        char_name: json_str_at(text, "char_name"),
        name: json_str_at(text, "name"),
        summary: json_str_at(text, "summary"),
        description: json_str_at(text, "description"),
        char_persona: json_str_at(text, "char_persona"),
        personality: json_str_at(text, "personality"),
        world_scenario: json_str_at(text, "world_scenario"),
        scenario: json_str_at(text, "scenario"),
        char_greeting: json_str_at(text, "char_greeting"),
        first_mes: json_str_at(text, "first_mes"),
        example_dialogue: json_str_at(text, "example_dialogue"),
        mes_example: json_str_at(text, "mes_example"),
        created: json_i64_at(text, "metadata", "created"),
    }
}

/// Imports a record from JSON text. A text that is not a JSON object is
/// rejected with `JsonParse`; in an object, each canonical field resolves
/// through its fallback chain and degrades to the empty string when absent.
pub fn load_character_json(json: &str) -> (r: Result<CharacterRecord, CardError>)
    ensures
        json_object_wf(json@) ==> (r matches Ok(c) && c@ == resolve_view(json_raw_view(json@))),
        !json_object_wf(json@) ==> (r matches Err(e) && e matches CardError::JsonParse(_)),
{
    match json_check_object(json) {
        Ok(_) => {
            let f = read_json_fields(json);
            Ok(record_from_fields(f))
        },
        Err(m) => {
            let mut msg = "Error while parsing json string: ".to_owned();
            msg.append(m.as_str());
            Err(CardError::JsonParse(msg))
        },
    }
}

/// The string value at `key` in the top-level YAML mapping of `text`, if
/// `text` parses as YAML and carries one.
pub uninterp spec fn yaml_str_field(text: Seq<char>, key: Seq<char>) -> Option<Seq<char>>;

/// The integer at `outer`.`inner` in the top-level YAML mapping of `text`,
/// if `text` parses as YAML and carries one.
pub uninterp spec fn yaml_nested_i64(
    text: Seq<char>,
    outer: Seq<char>,
    inner: Seq<char>,
) -> Option<i64>;

/// Whether `text` parses as a YAML document whose top level is a mapping.
pub uninterp spec fn yaml_mapping_wf(text: Seq<char>) -> bool;

/// Relies on `serde_yaml::from_str` and `serde_yaml::Value::{get, as_str}`:
/// the string at `key` in the YAML document `text`, a function of the two
/// texts alone.
#[verifier::external_body]
fn yaml_str_at(text: &str, key: &str) -> (r: Option<String>)
    ensures
        r matches Some(s) ==> yaml_str_field(text@, key@) == Some(s@),
        r is None ==> yaml_str_field(text@, key@) is None,
{
    let doc: serde_yaml::Value = serde_yaml::from_str(text).ok()?;
    Some(doc.get(key)?.as_str()?.to_owned())
}

/// Relies on `serde_yaml::from_str` and `serde_yaml::Value::{get, as_i64}`:
/// the integer at `outer`.`inner` in the YAML document `text`, a function of
/// the three texts alone.
#[verifier::external_body]
fn yaml_i64_at(text: &str, outer: &str, inner: &str) -> (r: Option<i64>)
    ensures
        r == yaml_nested_i64(text@, outer@, inner@),
{
    let doc: serde_yaml::Value = serde_yaml::from_str(text).ok()?;
    doc.get(outer)?.get(inner)?.as_i64()
}

/// Relies on `serde_yaml::from_str` and `serde_yaml::Value::is_mapping`:
/// accepts exactly the texts that parse as a YAML mapping, and reports the
/// parser's message otherwise.
#[verifier::external_body]
fn yaml_check_mapping(text: &str) -> (r: Result<(), String>)
    ensures
        (r is Ok) == yaml_mapping_wf(text@),
{
    match serde_yaml::from_str::<serde_yaml::Value>(text) {
        Ok(v) => {
            if v.is_mapping() {
                Ok(())
            } else {
                Err(format!("the document is not a YAML mapping"))
            }
        },
        Err(e) => Err(format!("{}", e)),
    }
}

/// The raw fields the YAML document `text` carries under the recognised keys.
pub open spec fn yaml_raw_view(t: Seq<char>) -> RawView {
    RawView {
        char_name: yaml_str_field(t, "char_name"@),
        name: yaml_str_field(t, "name"@),
        summary: yaml_str_field(t, "summary"@),
        description: yaml_str_field(t, "description"@),
        char_persona: yaml_str_field(t, "char_persona"@),
        personality: yaml_str_field(t, "personality"@),
        world_scenario: yaml_str_field(t, "world_scenario"@),
        scenario: yaml_str_field(t, "scenario"@),
        char_greeting: yaml_str_field(t, "char_greeting"@),
        first_mes: yaml_str_field(t, "first_mes"@),
        example_dialogue: yaml_str_field(t, "example_dialogue"@),
        mes_example: yaml_str_field(t, "mes_example"@),
        created: yaml_nested_i64(t, "metadata"@, "created"@),
    }
}

fn read_yaml_fields(text: &str) -> (f: RawFields)
    ensures
        f@ == yaml_raw_view(text@),
{
    RawFields {
        char_name: yaml_str_at(text, "char_name"),
        name: yaml_str_at(text, "name"),
        summary: yaml_str_at(text, "summary"),
        description: yaml_str_at(text, "description"),
        char_persona: yaml_str_at(text, "char_persona"),
        personality: yaml_str_at(text, "personality"),
        world_scenario: yaml_str_at(text, "world_scenario"),
        scenario: yaml_str_at(text, "scenario"),
        char_greeting: yaml_str_at(text, "char_greeting"),
        first_mes: yaml_str_at(text, "first_mes"),
        example_dialogue: yaml_str_at(text, "example_dialogue"),
        mes_example: yaml_str_at(text, "mes_example"),
        created: yaml_i64_at(text, "metadata", "created"),
    }
}

/// Imports a record from YAML text. A text that is not a YAML mapping is
/// rejected with `YamlParse`; in a mapping, each canonical field resolves
/// through its fallback chain and degrades to the empty string when absent.
pub fn load_character_yaml(yaml: &str) -> (r: Result<CharacterRecord, CardError>)
    ensures
        yaml_mapping_wf(yaml@) ==> (r matches Ok(c) && c@ == resolve_view(yaml_raw_view(yaml@))),
        !yaml_mapping_wf(yaml@) ==> (r matches Err(e) && e matches CardError::YamlParse(_)),
{
    match yaml_check_mapping(yaml) {
        Ok(_) => {
            let f = read_yaml_fields(yaml);
            Ok(record_from_fields(f))
        },
        Err(m) => {
            let mut msg = "Error while parsing yaml string: ".to_owned();
            msg.append(m.as_str());
            Err(CardError::YamlParse(msg))
        },
    }
}

} // verus!
