//! The export dialects: which external schema an export targets, how a
//! format identifier selects one, and the table of key/value pairs each
//! dialect carries.

use vstd::prelude::*;

use crate::record::CharacterRecord;
use crate::record::RecordView;
use crate::strutil::ascii_eq_ci;
use crate::strutil::str_eq_ignore_ascii_case;

verus! {

/// One of the export schemas. The three named dialects are selected by a
/// case-insensitive identifier; the neutral superset shape is reached only
/// through the dedicated neutral export entry points and the card exporter's
/// exact `neutral` identifier.
#[derive(Clone, Copy, Debug, PartialEq, Eq, Structural)]
pub enum Dialect {
    /// `tavernai` / `sillytavern`.
    TavernAi,
    /// `textgenerationwebui` / `pygmalion`.
    TextGenerationWebui,
    /// `aicompanion`.
    AiCompanion,
    /// The superset shape carrying both the dialect and the canonical keys.
    Neutral,
}

/// The dialect selected by a format identifier, compared ASCII
/// case-insensitively; `None` for every unknown identifier (including
/// `neutral`, which is not a dialect identifier).
pub open spec fn dialect_of(id: Seq<char>) -> Option<Dialect> {
    if ascii_eq_ci(id, "tavernai"@) || ascii_eq_ci(id, "sillytavern"@) {
        Some(Dialect::TavernAi)
    } else if ascii_eq_ci(id, "textgenerationwebui"@) || ascii_eq_ci(id, "pygmalion"@) {
        Some(Dialect::TextGenerationWebui)
    } else if ascii_eq_ci(id, "aicompanion"@) {
        Some(Dialect::AiCompanion)
    } else {
        None
    }
}

/// Resolves a format identifier to its dialect.
pub fn parse_dialect(format_type: &str) -> (r: Option<Dialect>)
    ensures
        r == dialect_of(format_type@),
{
    if str_eq_ignore_ascii_case(format_type, "tavernai") || str_eq_ignore_ascii_case(
        format_type,
        "sillytavern",
    ) {
        Some(Dialect::TavernAi)
    } else if str_eq_ignore_ascii_case(format_type, "textgenerationwebui")
        || str_eq_ignore_ascii_case(format_type, "pygmalion") {
        Some(Dialect::TextGenerationWebui)
    } else if str_eq_ignore_ascii_case(format_type, "aicompanion") {
        Some(Dialect::AiCompanion)
    } else {
        None
    }
}

/// The text exported into persona-like fields: the personality, or the
/// summary when the personality is empty.
pub open spec fn persona_source(v: RecordView) -> Seq<char> {
    if v.personality.len() == 0 {
        v.summary
    } else {
        v.personality
    }
}

/// The key/value pairs a dialect exports, in the order they are emitted.
pub open spec fn export_pairs(v: RecordView, d: Dialect) -> Seq<(Seq<char>, Seq<char>)> {
    match d {
        Dialect::TavernAi => seq![
            ("name"@, v.name),
            ("description"@, v.summary),
            ("personality"@, v.personality),
            ("scenario"@, v.scenario),
            ("first_mes"@, v.greeting_message),
            ("mes_example"@, v.example_messages),
        ],
        Dialect::TextGenerationWebui => seq![
            ("char_name"@, v.name),
            ("char_persona"@, persona_source(v)),
            ("world_scenario"@, v.scenario),
            ("char_greeting"@, v.greeting_message),
            ("example_dialogue"@, v.example_messages),
        ],
        Dialect::AiCompanion => seq![
            ("name"@, v.name),
            ("description"@, persona_source(v)),
            ("first_mes"@, v.greeting_message),
            ("mes_example"@, v.example_messages),
        ],
        Dialect::Neutral => seq![
            ("char_name"@, v.name),
            ("char_persona"@, persona_source(v)),
            ("world_scenario"@, v.scenario),
            ("char_greeting"@, v.greeting_message),
            ("example_dialogue"@, v.example_messages),
            ("name"@, v.name),
            ("description"@, v.summary),
            ("personality"@, v.personality),
            ("scenario"@, v.scenario),
            ("first_mes"@, v.greeting_message),
            ("mes_example"@, v.example_messages),
        ],
    }
}

/// The `created` stamp an export carries: the record's creation time when it
/// has one, else the moment of the export.
pub open spec fn export_created(v: RecordView, now: i64) -> i64 {
    match v.created_time {
        Some(t) => t,
        None => now,
    }
}

/// The mathematical value of one export: its key/value pairs and the two
/// metadata stamps. `modified` is always the moment of the export.
pub ghost struct ExportView {
    pub pairs: Seq<(Seq<char>, Seq<char>)>,
    pub created: i64,
    pub modified: i64,
}

/// The export of record `v` under dialect `d` at time `now`.
pub open spec fn export_view(v: RecordView, d: Dialect, now: i64) -> ExportView {
    ExportView { pairs: export_pairs(v, d), created: export_created(v, now), modified: now }
}

/// One exported key/value pair.
pub struct KV {
    pub key: String,
    pub value: String,
}

impl View for KV {
    type V = (Seq<char>, Seq<char>);

    open spec fn view(&self) -> (Seq<char>, Seq<char>) {
        (self.key@, self.value@)
    }
}

/// The views of a sequence of pairs.
pub open spec fn kvs_view(s: Seq<KV>) -> Seq<(Seq<char>, Seq<char>)> {
    s.map_values(|kv: KV| kv@)
}

fn kv(key: &str, value: &String) -> (r: KV)
    ensures
        r@ == (key@, value@),
{
    KV { key: key.to_owned(), value: value.clone() }
}

/// The persona text a dialect exports: the personality, or the summary when
/// the personality is empty.
fn persona_source_of(r: &CharacterRecord) -> (out: &String)
    ensures
        out@ == persona_source(r@),
{
    if r.personality().as_str().is_empty() {
        r.summary()
    } else {
        r.personality()
    }
}

/// Builds the export pair table of record `r` under dialect `d`.
pub fn build_export_pairs(r: &CharacterRecord, d: Dialect) -> (out: Vec<KV>)
    ensures
        kvs_view(out@) == export_pairs(r@, d),
{
    let mut out: Vec<KV> = Vec::new();
    match d {
        Dialect::TavernAi => {
            out.push(kv("name", r.name()));
            out.push(kv("description", r.summary()));
            out.push(kv("personality", r.personality()));
            out.push(kv("scenario", r.scenario()));
            out.push(kv("first_mes", r.greeting_message()));
            out.push(kv("mes_example", r.example_messages()));
        },
        Dialect::TextGenerationWebui => {
            out.push(kv("char_name", r.name()));
            out.push(kv("char_persona", persona_source_of(r)));
            out.push(kv("world_scenario", r.scenario()));
            out.push(kv("char_greeting", r.greeting_message()));
            out.push(kv("example_dialogue", r.example_messages()));
        },
        Dialect::AiCompanion => {
            out.push(kv("name", r.name()));
            out.push(kv("description", persona_source_of(r)));
            out.push(kv("first_mes", r.greeting_message()));
            out.push(kv("mes_example", r.example_messages()));
        },
        Dialect::Neutral => {
            out.push(kv("char_name", r.name()));
            out.push(kv("char_persona", persona_source_of(r)));
            out.push(kv("world_scenario", r.scenario()));
            out.push(kv("char_greeting", r.greeting_message()));
            out.push(kv("example_dialogue", r.example_messages()));
            out.push(kv("name", r.name()));
            out.push(kv("description", r.summary()));
            out.push(kv("personality", r.personality()));
            out.push(kv("scenario", r.scenario()));
            out.push(kv("first_mes", r.greeting_message()));
            out.push(kv("mes_example", r.example_messages()));
        },
    }
    proof {
        assert(kvs_view(out@) =~= export_pairs(r@, d));
    }
    out
}

/// Resolves the `created` stamp of an export made at time `now`.
pub fn resolve_created(r: &CharacterRecord, now: i64) -> (out: i64)
    ensures
        out == export_created(r@, now),
{
    match r.created_time() {
        Some(t) => t,
        None => now,
    }
}

} // verus!
