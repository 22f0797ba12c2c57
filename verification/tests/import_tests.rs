use aichar::error::CardError;
use aichar::import::load_character_json;
use aichar::import::load_character_yaml;

#[test]
fn char_name_wins_over_name() {
    let r = load_character_json("{\"char_name\": \"A\", \"name\": \"B\"}").unwrap();
    assert_eq!(r.name(), "A");
}

#[test]
fn name_is_used_when_char_name_is_absent() {
    let r = load_character_json("{\"name\": \"B\"}").unwrap();
    assert_eq!(r.name(), "B");
}

#[test]
fn summary_key_is_preferred_over_description() {
    let r = load_character_json("{\"summary\": \"s\", \"description\": \"d\"}").unwrap();
    assert_eq!(r.summary(), "s");
    let r2 = load_character_json("{\"description\": \"d\"}").unwrap();
    assert_eq!(r2.summary(), "d");
}

#[test]
fn every_fallback_chain_resolves() {
    let doc = "{\"char_persona\": \"p\", \"world_scenario\": \"w\", \"char_greeting\": \"g\", \"example_dialogue\": \"e\"}";
    let r = load_character_json(doc).unwrap();
    assert_eq!(r.personality(), "p");
    assert_eq!(r.scenario(), "w");
    assert_eq!(r.greeting_message(), "g");
    assert_eq!(r.example_messages(), "e");
    let doc2 = "{\"personality\": \"p2\", \"scenario\": \"s2\", \"first_mes\": \"g2\", \"mes_example\": \"e2\"}";
    let r2 = load_character_json(doc2).unwrap();
    assert_eq!(r2.personality(), "p2");
    assert_eq!(r2.scenario(), "s2");
    assert_eq!(r2.greeting_message(), "g2");
    assert_eq!(r2.example_messages(), "e2");
}

#[test]
fn missing_keys_degrade_to_empty_strings() {
    let r = load_character_json("{}").unwrap();
    assert_eq!(r.name(), "");
    assert_eq!(r.summary(), "");
    assert_eq!(r.personality(), "");
    assert_eq!(r.scenario(), "");
    assert_eq!(r.greeting_message(), "");
    assert_eq!(r.example_messages(), "");
    assert_eq!(r.created_time(), None);
    assert!(r.image_path().is_none());
}

#[test]
fn metadata_created_becomes_the_creation_time() {
    let r = load_character_json("{\"name\": \"A\", \"metadata\": {\"created\": 1719000000000}}")
        .unwrap();
    assert_eq!(r.created_time(), Some(1719000000000));
}

#[test]
fn invalid_json_is_rejected_with_json_parse() {
    let e = load_character_json("{not json").unwrap_err();
    assert!(matches!(e, CardError::JsonParse(_)));
}

#[test]
fn non_object_json_is_rejected_with_json_parse() {
    let e = load_character_json("[1, 2, 3]").unwrap_err();
    assert!(matches!(e, CardError::JsonParse(_)));
}

#[test]
fn yaml_import_resolves_the_same_chains() {
    let doc = "char_name: Alice\ndescription: a summary\nchar_persona: bold\nfirst_mes: hi\n";
    let r = load_character_yaml(doc).unwrap();
    assert_eq!(r.name(), "Alice");
    assert_eq!(r.summary(), "a summary");
    assert_eq!(r.personality(), "bold");
    assert_eq!(r.greeting_message(), "hi");
}

#[test]
fn yaml_metadata_created_is_read() {
    let doc = "name: A\nmetadata:\n  created: 42\n";
    let r = load_character_yaml(doc).unwrap();
    assert_eq!(r.created_time(), Some(42));
}

#[test]
fn invalid_yaml_is_rejected_with_yaml_parse() {
    let e = load_character_yaml(": : :").unwrap_err();
    assert!(matches!(e, CardError::YamlParse(_)));
}

#[test]
fn non_mapping_yaml_is_rejected_with_yaml_parse() {
    let e = load_character_yaml("- a\n- b\n").unwrap_err();
    assert!(matches!(e, CardError::YamlParse(_)));
}

#[test]
fn imported_records_carry_no_image_path() {
    let r = load_character_json("{\"name\": \"A\"}").unwrap();
    assert!(r.image_path().is_none());
}

#[test]
fn record_from_fields_applies_the_chains_directly() {
    let f = aichar::import::RawFields {
        char_name: None,
        name: Some("N".to_string()),
        summary: Some("S".to_string()),
        description: Some("D".to_string()),
        char_persona: Some("P".to_string()),
        personality: None,
        world_scenario: None,
        scenario: None,
        char_greeting: None,
        first_mes: Some("G".to_string()),
        example_dialogue: None,
        mes_example: None,
        created: Some(8),
    };
    let r = aichar::import::record_from_fields(f);
    assert_eq!(r.name(), "N");
    assert_eq!(r.summary(), "S");
    assert_eq!(r.personality(), "P");
    assert_eq!(r.scenario(), "");
    assert_eq!(r.greeting_message(), "G");
    assert_eq!(r.example_messages(), "");
    assert_eq!(r.created_time(), Some(8));
}
