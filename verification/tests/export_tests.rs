use aichar::error::CardError;
use aichar::export::export_as_json;
use aichar::export::export_as_neutral_json;
use aichar::export::export_as_neutral_yaml;
use aichar::export::export_as_yaml;
use aichar::record::create_character;
use aichar::record::CharacterRecord;

fn sample_record() -> CharacterRecord {
    create_character(
        "Alice",
        "A curious adventurer",
        "inquisitive",
        "a vast library",
        "Hello there!",
        "<START>\nAlice: hi",
        "alice.png",
    )
}

fn parse(text: &str) -> serde_json::Value {
    serde_json::from_str(text).expect("export must be valid JSON")
}

fn str_at<'a>(v: &'a serde_json::Value, key: &str) -> &'a str {
    v.get(key).and_then(|x| x.as_str()).unwrap()
}

#[test]
fn tavernai_export_carries_the_tavern_keys() {
    let v = parse(&export_as_json(&sample_record(), "tavernai", 1234).unwrap());
    assert_eq!(str_at(&v, "name"), "Alice");
    assert_eq!(str_at(&v, "description"), "A curious adventurer");
    assert_eq!(str_at(&v, "personality"), "inquisitive");
    assert_eq!(str_at(&v, "scenario"), "a vast library");
    assert_eq!(str_at(&v, "first_mes"), "Hello there!");
    assert_eq!(str_at(&v, "mes_example"), "<START>\nAlice: hi");
    assert!(v.get("char_name").is_none());
    let meta = v.get("metadata").unwrap();
    assert_eq!(meta.get("version").and_then(|x| x.as_i64()), Some(1));
    assert_eq!(meta.get("created").and_then(|x| x.as_i64()), Some(1234));
    assert_eq!(meta.get("modified").and_then(|x| x.as_i64()), Some(1234));
    assert!(meta.get("source").unwrap().is_null());
    let tool = meta.get("tool").unwrap();
    assert_eq!(tool.get("name").and_then(|x| x.as_str()), Some("aichar Python library"));
    assert_eq!(tool.get("version").and_then(|x| x.as_str()), Some("1.0.5"));
}

#[test]
fn sillytavern_is_an_alias_of_tavernai() {
    let r = sample_record();
    let a = export_as_json(&r, "tavernai", 7).unwrap();
    let b = export_as_json(&r, "sillytavern", 7).unwrap();
    assert_eq!(a, b);
}

#[test]
fn textgenerationwebui_export_carries_the_webui_keys() {
    let v = parse(&export_as_json(&sample_record(), "textgenerationwebui", 5).unwrap());
    assert_eq!(str_at(&v, "char_name"), "Alice");
    assert_eq!(str_at(&v, "char_persona"), "inquisitive");
    assert_eq!(str_at(&v, "world_scenario"), "a vast library");
    assert_eq!(str_at(&v, "char_greeting"), "Hello there!");
    assert_eq!(str_at(&v, "example_dialogue"), "<START>\nAlice: hi");
    assert!(v.get("name").is_none());
}

#[test]
fn pygmalion_is_an_alias_of_textgenerationwebui() {
    let r = sample_record();
    let a = export_as_json(&r, "textgenerationwebui", 7).unwrap();
    let b = export_as_json(&r, "pygmalion", 7).unwrap();
    assert_eq!(a, b);
}

#[test]
fn aicompanion_export_carries_the_companion_keys() {
    let v = parse(&export_as_json(&sample_record(), "aicompanion", 5).unwrap());
    assert_eq!(str_at(&v, "name"), "Alice");
    assert_eq!(str_at(&v, "description"), "inquisitive");
    assert_eq!(str_at(&v, "first_mes"), "Hello there!");
    assert_eq!(str_at(&v, "mes_example"), "<START>\nAlice: hi");
}

#[test]
fn neutral_export_carries_both_key_sets() {
    let v = parse(&export_as_neutral_json(&sample_record(), 5));
    assert_eq!(str_at(&v, "char_name"), "Alice");
    assert_eq!(str_at(&v, "name"), "Alice");
    assert_eq!(str_at(&v, "char_persona"), "inquisitive");
    assert_eq!(str_at(&v, "personality"), "inquisitive");
    assert_eq!(str_at(&v, "description"), "A curious adventurer");
    assert_eq!(str_at(&v, "world_scenario"), "a vast library");
    assert_eq!(str_at(&v, "scenario"), "a vast library");
    assert_eq!(str_at(&v, "char_greeting"), "Hello there!");
    assert_eq!(str_at(&v, "first_mes"), "Hello there!");
    assert_eq!(str_at(&v, "example_dialogue"), "<START>\nAlice: hi");
    assert_eq!(str_at(&v, "mes_example"), "<START>\nAlice: hi");
}

#[test]
fn persona_fallback_substitutes_summary() {
    let mut r = sample_record();
    r.set_personality("");
    let webui = parse(&export_as_json(&r, "pygmalion", 5).unwrap());
    assert_eq!(str_at(&webui, "char_persona"), "A curious adventurer");
    let companion = parse(&export_as_json(&r, "aicompanion", 5).unwrap());
    assert_eq!(str_at(&companion, "description"), "A curious adventurer");
    let tavern = parse(&export_as_json(&r, "tavernai", 5).unwrap());
    assert_eq!(str_at(&tavern, "description"), "A curious adventurer");
    let neutral = parse(&export_as_neutral_json(&r, 5));
    assert_eq!(str_at(&neutral, "char_persona"), "A curious adventurer");
    assert_eq!(str_at(&neutral, "personality"), "");
}

#[test]
fn created_time_is_preserved_and_modified_is_fresh() {
    let mut r = sample_record();
    let json = export_as_json(&r, "tavernai", 99).unwrap();
    let loaded = aichar::import::load_character_json(&json).unwrap();
    assert_eq!(loaded.created_time(), Some(99));
    r = loaded;
    let v = parse(&export_as_json(&r, "tavernai", 500).unwrap());
    let meta = v.get("metadata").unwrap();
    assert_eq!(meta.get("created").and_then(|x| x.as_i64()), Some(99));
    assert_eq!(meta.get("modified").and_then(|x| x.as_i64()), Some(500));
}

#[test]
fn negative_timestamps_render_in_decimal() {
    let r = sample_record();
    let json = export_as_json(&r, "tavernai", -31536000000).unwrap();
    let v = parse(&json);
    let meta = v.get("metadata").unwrap();
    assert_eq!(meta.get("modified").and_then(|x| x.as_i64()), Some(-31536000000));
}

#[test]
fn unknown_dialect_is_rejected_with_unsupported_format() {
    let e = export_as_json(&sample_record(), "bogus", 5).unwrap_err();
    assert!(matches!(e, CardError::UnsupportedFormat(_)));
    assert!(e.message().contains("tavernai"));
    assert!(e.message().contains("aicompanion"));
    let e2 = sample_record().export_json("bogus").unwrap_err();
    assert!(matches!(e2, CardError::UnsupportedFormat(_)));
    let e3 = export_as_yaml(&sample_record(), "neutral", 5).unwrap_err();
    assert!(matches!(e3, CardError::UnsupportedFormat(_)));
}

#[test]
fn dialect_identifiers_are_case_insensitive() {
    let r = sample_record();
    assert!(export_as_json(&r, "TavernAI", 5).is_ok());
    assert!(export_as_json(&r, "SILLYTAVERN", 5).is_ok());
    assert!(export_as_json(&r, "Pygmalion", 5).is_ok());
    assert!(export_as_json(&r, "AICompanion", 5).is_ok());
}

#[test]
fn special_characters_are_escaped_and_round_trip() {
    let mut r = sample_record();
    r.set_summary("say \"hi\"\nthen \\ wave\tok");
    let json = export_as_json(&r, "tavernai", 5).unwrap();
    let v = parse(&json);
    assert_eq!(str_at(&v, "description"), "say \"hi\"\nthen \\ wave\tok");
}

#[test]
fn json_round_trip_through_tavernai() {
    let r = sample_record();
    let first = export_as_json(&r, "tavernai", 10).unwrap();
    let back = aichar::import::load_character_json(&first).unwrap();
    assert_eq!(back.name(), r.name());
    assert_eq!(back.summary(), r.summary());
    assert_eq!(back.personality(), r.personality());
    assert_eq!(back.scenario(), r.scenario());
    assert_eq!(back.greeting_message(), r.greeting_message());
    assert_eq!(back.example_messages(), r.example_messages());
    let again = export_as_json(&back, "tavernai", 10).unwrap();
    assert_eq!(first, again);
}

#[test]
fn modified_stamps_are_monotone_across_exports() {
    let r = sample_record();
    let m1 = parse(&r.export_json("tavernai").unwrap())
        .get("metadata")
        .and_then(|m| m.get("modified"))
        .and_then(|x| x.as_i64())
        .unwrap();
    let m2 = parse(&r.export_json("tavernai").unwrap())
        .get("metadata")
        .and_then(|m| m.get("modified"))
        .and_then(|x| x.as_i64())
        .unwrap();
    assert!(m1 <= m2);
}

#[test]
fn yaml_export_matches_the_json_mapping() {
    let r = sample_record();
    let yaml = export_as_yaml(&r, "tavernai", 44).unwrap();
    let v: serde_yaml::Value = serde_yaml::from_str(&yaml).unwrap();
    assert_eq!(v.get("name").and_then(|x| x.as_str()), Some("Alice"));
    assert_eq!(v.get("description").and_then(|x| x.as_str()), Some("A curious adventurer"));
    assert_eq!(v.get("mes_example").and_then(|x| x.as_str()), Some("<START>\nAlice: hi"));
    let meta = v.get("metadata").unwrap();
    assert_eq!(meta.get("modified").and_then(|x| x.as_i64()), Some(44));
    assert_ne!(yaml, export_as_json(&r, "tavernai", 44).unwrap());
}

#[test]
fn neutral_yaml_round_trips_through_the_yaml_importer() {
    let r = sample_record();
    let yaml = export_as_neutral_yaml(&r, 3).unwrap();
    let back = aichar::import::load_character_yaml(&yaml).unwrap();
    assert_eq!(back.name(), r.name());
    assert_eq!(back.summary(), r.summary());
    assert_eq!(back.example_messages(), r.example_messages());
}
