//! Cross-function laws of the library, stated over the same spec functions
//! that the public contracts use, and proved by Verus.

use vstd::prelude::*;
use vstd::utf8::encode_utf8;

use crate::card::base64_text;
use crate::card::card_chara_text;
use crate::card::card_payload_json;
use crate::card::first_chara_from;
use crate::card::png_text_chunks_of;
use crate::dialect::Dialect;
use crate::dialect::export_pairs;
use crate::dialect::export_view;
use crate::import::RawView;
use crate::import::resolve_view;
use crate::record::RecordView;

verus! {

/// Fallback precedence on import: a value under the primary key `char_name`
/// wins over one under `name`; `name` is used only when `char_name` is
/// absent; and the field degrades to the empty string when both are absent.
pub proof fn lemma_fallback_precedence(f: RawView)
    ensures
        f.char_name matches Some(n) ==> resolve_view(f).name == n,
        f.char_name is None ==> (f.name matches Some(n) ==> resolve_view(f).name == n),
        (f.char_name is None && f.name is None) ==> resolve_view(f).name == Seq::<char>::empty(),
{
}

/// Persona fallback on export: when the personality is empty, the
/// persona-like field of every non-neutral dialect carries the summary —
/// `char_persona` for TextGenerationWebui/Pygmalion, `description` for
/// AiCompanion, and TavernAI's `description`, which carries the summary
/// unconditionally.
pub proof fn lemma_persona_fallback(v: RecordView)
    requires
        v.personality.len() == 0,
    ensures
        export_pairs(v, Dialect::TextGenerationWebui)[1] == ("char_persona"@, v.summary),
        export_pairs(v, Dialect::AiCompanion)[1] == ("description"@, v.summary),
        export_pairs(v, Dialect::TavernAi)[1] == ("description"@, v.summary),
{
}

/// Metadata freshness: two exports of one record at non-decreasing times
/// carry non-decreasing `modified` stamps, whatever the dialects.
pub proof fn lemma_metadata_freshness(v: RecordView, d1: Dialect, d2: Dialect, t1: i64, t2: i64)
    requires
        t1 <= t2,
    ensures
        export_view(v, d1, t1).modified <= export_view(v, d2, t2).modified,
{
}

/// The value exported under `key` at or after position `i`, if any.
pub open spec fn pairs_lookup_from(
    pairs: Seq<(Seq<char>, Seq<char>)>,
    key: Seq<char>,
    i: int,
) -> Option<Seq<char>>
    decreases pairs.len() - i,
{
    if i < 0 || i >= pairs.len() {
        None
    } else if pairs[i].0 == key {
        Some(pairs[i].1)
    } else {
        pairs_lookup_from(pairs, key, i + 1)
    }
}

/// The first value exported under `key`, if any.
pub open spec fn pairs_lookup(pairs: Seq<(Seq<char>, Seq<char>)>, key: Seq<char>) -> Option<
    Seq<char>,
> {
    pairs_lookup_from(pairs, key, 0)
}

/// The raw import fields that a set of exported pairs presents to the
/// importer: each recognised source key reads the value exported under it.
pub open spec fn raw_of_pairs(
    pairs: Seq<(Seq<char>, Seq<char>)>,
    created: Option<i64>,
) -> RawView {
    RawView {
        char_name: pairs_lookup(pairs, "char_name"@),
        name: pairs_lookup(pairs, "name"@),
        summary: pairs_lookup(pairs, "summary"@),
        description: pairs_lookup(pairs, "description"@),
        char_persona: pairs_lookup(pairs, "char_persona"@),
        personality: pairs_lookup(pairs, "personality"@),
        world_scenario: pairs_lookup(pairs, "world_scenario"@),
        scenario: pairs_lookup(pairs, "scenario"@),
        char_greeting: pairs_lookup(pairs, "char_greeting"@),
        first_mes: pairs_lookup(pairs, "first_mes"@),
        example_dialogue: pairs_lookup(pairs, "example_dialogue"@),
        mes_example: pairs_lookup(pairs, "mes_example"@),
        created: created,
    }
}

/// Round trip through the TavernAI dialect: resolving the fields that a
/// TavernAI export presents restores the record's six text fields exactly,
/// for every record.
pub proof fn lemma_tavern_round_trip(v: RecordView, created: Option<i64>)
    ensures
        ({
            let back = resolve_view(raw_of_pairs(export_pairs(v, Dialect::TavernAi), created));
            back.name == v.name && back.summary == v.summary && back.personality == v.personality
                && back.scenario == v.scenario && back.greeting_message == v.greeting_message
                && back.example_messages == v.example_messages && back.created_time == created
        }),
{
    broadcast use vstd::string::group_string_axioms;

    reveal_strlit("char_name");
    reveal_strlit("name");
    reveal_strlit("summary");
    reveal_strlit("description");
    reveal_strlit("char_persona");
    reveal_strlit("personality");
    reveal_strlit("world_scenario");
    reveal_strlit("scenario");
    reveal_strlit("char_greeting");
    reveal_strlit("first_mes");
    reveal_strlit("example_dialogue");
    reveal_strlit("mes_example");
    let p = export_pairs(v, Dialect::TavernAi);
    assert(p.len() == 6);
    assert("name"@.len() == 4 && "summary"@.len() == 7 && "scenario"@.len() == 8);
    assert("char_name"@.len() == 9 && "first_mes"@.len() == 9);
    assert("description"@.len() == 11 && "personality"@.len() == 11 && "mes_example"@.len() == 11);
    assert("char_persona"@.len() == 12 && "char_greeting"@.len() == 13);
    assert("world_scenario"@.len() == 14 && "example_dialogue"@.len() == 16);
    assert("char_name"@[0] == 'c' && "first_mes"@[0] == 'f');
    assert("description"@[0] == 'd' && "personality"@[0] == 'p' && "mes_example"@[0] == 'm');
    assert(pairs_lookup_from(p, "char_name"@, 0) == pairs_lookup_from(p, "char_name"@, 1));
    assert(pairs_lookup_from(p, "char_name"@, 1) == pairs_lookup_from(p, "char_name"@, 2));
    assert(pairs_lookup_from(p, "char_name"@, 2) == pairs_lookup_from(p, "char_name"@, 3));
    assert(pairs_lookup_from(p, "char_name"@, 3) == pairs_lookup_from(p, "char_name"@, 4));
    assert(pairs_lookup_from(p, "char_name"@, 4) == pairs_lookup_from(p, "char_name"@, 5));
    assert(pairs_lookup_from(p, "char_name"@, 5) == pairs_lookup_from(p, "char_name"@, 6));
    assert(pairs_lookup_from(p, "char_name"@, 6) is None);
    assert(pairs_lookup_from(p, "summary"@, 0) == pairs_lookup_from(p, "summary"@, 1));
    assert(pairs_lookup_from(p, "summary"@, 1) == pairs_lookup_from(p, "summary"@, 2));
    assert(pairs_lookup_from(p, "summary"@, 2) == pairs_lookup_from(p, "summary"@, 3));
    assert(pairs_lookup_from(p, "summary"@, 3) == pairs_lookup_from(p, "summary"@, 4));
    assert(pairs_lookup_from(p, "summary"@, 4) == pairs_lookup_from(p, "summary"@, 5));
    assert(pairs_lookup_from(p, "summary"@, 5) == pairs_lookup_from(p, "summary"@, 6));
    assert(pairs_lookup_from(p, "summary"@, 6) is None);
    assert(pairs_lookup_from(p, "char_persona"@, 0) == pairs_lookup_from(p, "char_persona"@, 1));
    assert(pairs_lookup_from(p, "char_persona"@, 1) == pairs_lookup_from(p, "char_persona"@, 2));
    assert(pairs_lookup_from(p, "char_persona"@, 2) == pairs_lookup_from(p, "char_persona"@, 3));
    assert(pairs_lookup_from(p, "char_persona"@, 3) == pairs_lookup_from(p, "char_persona"@, 4));
    assert(pairs_lookup_from(p, "char_persona"@, 4) == pairs_lookup_from(p, "char_persona"@, 5));
    assert(pairs_lookup_from(p, "char_persona"@, 5) == pairs_lookup_from(p, "char_persona"@, 6));
    assert(pairs_lookup_from(p, "char_persona"@, 6) is None);
    assert(pairs_lookup_from(p, "world_scenario"@, 0) == pairs_lookup_from(p, "world_scenario"@, 1));
    assert(pairs_lookup_from(p, "world_scenario"@, 1) == pairs_lookup_from(p, "world_scenario"@, 2));
    assert(pairs_lookup_from(p, "world_scenario"@, 2) == pairs_lookup_from(p, "world_scenario"@, 3));
    assert(pairs_lookup_from(p, "world_scenario"@, 3) == pairs_lookup_from(p, "world_scenario"@, 4));
    assert(pairs_lookup_from(p, "world_scenario"@, 4) == pairs_lookup_from(p, "world_scenario"@, 5));
    assert(pairs_lookup_from(p, "world_scenario"@, 5) == pairs_lookup_from(p, "world_scenario"@, 6));
    assert(pairs_lookup_from(p, "world_scenario"@, 6) is None);
    assert(pairs_lookup_from(p, "char_greeting"@, 0) == pairs_lookup_from(p, "char_greeting"@, 1));
    assert(pairs_lookup_from(p, "char_greeting"@, 1) == pairs_lookup_from(p, "char_greeting"@, 2));
    assert(pairs_lookup_from(p, "char_greeting"@, 2) == pairs_lookup_from(p, "char_greeting"@, 3));
    assert(pairs_lookup_from(p, "char_greeting"@, 3) == pairs_lookup_from(p, "char_greeting"@, 4));
    assert(pairs_lookup_from(p, "char_greeting"@, 4) == pairs_lookup_from(p, "char_greeting"@, 5));
    assert(pairs_lookup_from(p, "char_greeting"@, 5) == pairs_lookup_from(p, "char_greeting"@, 6));
    assert(pairs_lookup_from(p, "char_greeting"@, 6) is None);
    assert(pairs_lookup_from(p, "example_dialogue"@, 0) == pairs_lookup_from(p, "example_dialogue"@, 1));
    assert(pairs_lookup_from(p, "example_dialogue"@, 1) == pairs_lookup_from(p, "example_dialogue"@, 2));
    assert(pairs_lookup_from(p, "example_dialogue"@, 2) == pairs_lookup_from(p, "example_dialogue"@, 3));
    assert(pairs_lookup_from(p, "example_dialogue"@, 3) == pairs_lookup_from(p, "example_dialogue"@, 4));
    assert(pairs_lookup_from(p, "example_dialogue"@, 4) == pairs_lookup_from(p, "example_dialogue"@, 5));
    assert(pairs_lookup_from(p, "example_dialogue"@, 5) == pairs_lookup_from(p, "example_dialogue"@, 6));
    assert(pairs_lookup_from(p, "example_dialogue"@, 6) is None);
    assert(pairs_lookup_from(p, "name"@, 0) == Some(p[0].1));
    assert(pairs_lookup_from(p, "description"@, 0) == pairs_lookup_from(p, "description"@, 1));
    assert(pairs_lookup_from(p, "description"@, 1) == Some(p[1].1));
    assert(pairs_lookup_from(p, "personality"@, 0) == pairs_lookup_from(p, "personality"@, 1));
    assert(pairs_lookup_from(p, "personality"@, 1) == pairs_lookup_from(p, "personality"@, 2));
    assert(pairs_lookup_from(p, "personality"@, 2) == Some(p[2].1));
    assert(pairs_lookup_from(p, "scenario"@, 0) == pairs_lookup_from(p, "scenario"@, 1));
    assert(pairs_lookup_from(p, "scenario"@, 1) == pairs_lookup_from(p, "scenario"@, 2));
    assert(pairs_lookup_from(p, "scenario"@, 2) == pairs_lookup_from(p, "scenario"@, 3));
    assert(pairs_lookup_from(p, "scenario"@, 3) == Some(p[3].1));
    assert(pairs_lookup_from(p, "first_mes"@, 0) == pairs_lookup_from(p, "first_mes"@, 1));
    assert(pairs_lookup_from(p, "first_mes"@, 1) == pairs_lookup_from(p, "first_mes"@, 2));
    assert(pairs_lookup_from(p, "first_mes"@, 2) == pairs_lookup_from(p, "first_mes"@, 3));
    assert(pairs_lookup_from(p, "first_mes"@, 3) == pairs_lookup_from(p, "first_mes"@, 4));
    assert(pairs_lookup_from(p, "first_mes"@, 4) == Some(p[4].1));
    assert(pairs_lookup_from(p, "mes_example"@, 0) == pairs_lookup_from(p, "mes_example"@, 1));
    assert(pairs_lookup_from(p, "mes_example"@, 1) == pairs_lookup_from(p, "mes_example"@, 2));
    assert(pairs_lookup_from(p, "mes_example"@, 2) == pairs_lookup_from(p, "mes_example"@, 3));
    assert(pairs_lookup_from(p, "mes_example"@, 3) == pairs_lookup_from(p, "mes_example"@, 4));
    assert(pairs_lookup_from(p, "mes_example"@, 4) == pairs_lookup_from(p, "mes_example"@, 5));
    assert(pairs_lookup_from(p, "mes_example"@, 5) == Some(p[5].1));
}

/// Card extraction: a stream whose text chunks are exactly one `chara` pair
/// hands that pair's text to the import pipeline — the structured reading
/// side of the card round trip. Together with the contracts of
/// `export_as_card` and `load_character_card`, this closes the loop from an
/// exported card back to the record its JSON document resolves to.
pub proof fn lemma_card_chara_extraction(card: Seq<u8>, payload: Seq<char>)
    requires
        png_text_chunks_of(card) == Some(seq![("chara"@, payload)]),
    ensures
        card_chara_text(card) == Some(payload),
{
    assert(first_chara_from(seq![("chara"@, payload)], 0) == Some(payload));
}

/// Card round trip: the bytes that a card export produces carry, as their
/// `chara` text, exactly the base64 encoding of the dialect's JSON document,
/// and the card importer's extraction yields that same text.
pub proof fn lemma_card_round_trip(card: Seq<u8>, v: RecordView, fmt: Seq<char>, now: i64)
    requires
        png_text_chunks_of(card) == Some(
            seq![("chara"@, base64_text(encode_utf8(card_payload_json(v, fmt, now))))],
        ),
    ensures
        card_chara_text(card) == Some(base64_text(encode_utf8(card_payload_json(v, fmt, now)))),
{
    lemma_card_chara_extraction(card, base64_text(encode_utf8(card_payload_json(v, fmt, now))));
}

} // verus!

