use aichar::error::CardError;
use aichar::record::create_character;
use aichar::record::CharacterRecord;
use aichar::record::FileStatus;

fn sample() -> CharacterRecord {
    create_character(
        "Alice",
        "A curious adventurer",
        "inquisitive",
        "a vast library",
        "Hello there!",
        "<START>\nAlice: hi",
        "alice.png",
    )
}

#[test]
fn create_character_sets_every_field() {
    let r = sample();
    assert_eq!(r.name(), "Alice");
    assert_eq!(r.summary(), "A curious adventurer");
    assert_eq!(r.personality(), "inquisitive");
    assert_eq!(r.scenario(), "a vast library");
    assert_eq!(r.greeting_message(), "Hello there!");
    assert_eq!(r.example_messages(), "<START>\nAlice: hi");
    assert_eq!(r.image_path().map(|s| s.as_str()), Some("alice.png"));
    assert_eq!(r.created_time(), None);
}

#[test]
fn setters_replace_fields() {
    let mut r = sample();
    r.set_name("Bob");
    r.set_summary("s2");
    r.set_personality("p2");
    r.set_scenario("sc2");
    r.set_greeting_message("g2");
    r.set_example_messages("e2");
    assert_eq!(r.name(), "Bob");
    assert_eq!(r.summary(), "s2");
    assert_eq!(r.personality(), "p2");
    assert_eq!(r.scenario(), "sc2");
    assert_eq!(r.greeting_message(), "g2");
    assert_eq!(r.example_messages(), "e2");
}

#[test]
fn data_summary_renders_fixed_block() {
    let r = sample();
    let expected = "Name: Alice\nSummary: A curious adventurer\nPersonality: inquisitive\nScenario: a vast library\nGreeting Message: Hello there!\nExample Messages: \n<START>\nAlice: hi\nImage Path: alice.png";
    assert_eq!(r.data_summary(), expected);
}

#[test]
fn data_summary_without_image_path() {
    let r = aichar::import::load_character_json("{}").unwrap();
    assert!(r.data_summary().ends_with("Image Path: None"));
}

#[test]
fn set_image_path_rejects_wrong_extension() {
    let mut r = sample();
    let e = r.set_image_path("portrait.jpg", FileStatus::IsFile).unwrap_err();
    assert!(matches!(e, CardError::InvalidImagePath(_)));
    assert_eq!(r.image_path().map(|s| s.as_str()), Some("alice.png"));
}

#[test]
fn set_image_path_rejects_missing_file() {
    let mut r = sample();
    let e = r.set_image_path("ghost.png", FileStatus::Missing).unwrap_err();
    assert!(matches!(e, CardError::InvalidImagePath(_)));
    assert!(e.message().contains("does not exist"));
}

#[test]
fn set_image_path_rejects_directory() {
    let mut r = sample();
    let e = r.set_image_path("dir.png", FileStatus::NotAFile).unwrap_err();
    assert!(matches!(e, CardError::InvalidImagePath(_)));
    assert!(e.message().contains("not a file"));
}

#[test]
fn set_image_path_accepts_uppercase_extension() {
    let mut r = sample();
    r.set_image_path("portrait.PNG", FileStatus::IsFile).unwrap();
    assert_eq!(r.image_path().map(|s| s.as_str()), Some("portrait.PNG"));
}

#[test]
fn missing_image_error_for_card_export() {
    let r = aichar::import::load_character_json("{}").unwrap();
    let e = r.card_image_path().unwrap_err();
    assert!(matches!(e, CardError::MissingImage(_)));
}
