use base64::Engine as _;

use aichar::card::export_as_card;
use aichar::card::find_chara_chunk;
use aichar::card::load_character_card;
use aichar::error::CardError;
use aichar::record::create_character;
use aichar::record::CharacterRecord;

fn card_record() -> CharacterRecord {
    create_character(
        "Alice",
        "A curious adventurer",
        "inquisitive",
        "a vast library",
        "Hello there!",
        "<START>\nAlice: hi",
        "alice.png",
    )
}

fn tiny_png() -> Vec<u8> {
    let mut out = Vec::new();
    {
        let mut enc = png::Encoder::new(&mut out, 2, 2);
        enc.set_color(png::ColorType::Rgba);
        enc.set_depth(png::BitDepth::Eight);
        let mut writer = enc.write_header().unwrap();
        writer.write_image_data(&[7u8; 16]).unwrap();
    }
    out
}

fn raw_card(payload: &[u8]) -> Vec<u8> {
    let mut v = b"junkjunk".to_vec();
    v.extend_from_slice(b"tEXtchara");
    v.push(0);
    v.extend_from_slice(payload);
    v.extend_from_slice(&[1, 2, 3, 4]); // the chunk CRC, skipped by the scanner
    v.extend_from_slice(&[0, 0, 0, 0]); // the IEND length field
    v.extend_from_slice(b"IEND");
    v.extend_from_slice(&[0xae, 0x42, 0x60, 0x82]);
    v
}

fn std_b64() -> base64::engine::GeneralPurpose {
    base64::engine::GeneralPurpose::new(
        &base64::alphabet::STANDARD,
        base64::engine::GeneralPurposeConfig::new(),
    )
}

#[test]
fn card_round_trip_restores_every_text_field() {
    let r = card_record();
    let card = export_as_card(&r, &tiny_png(), "tavernai", 99).unwrap();
    let back = load_character_card(&card).unwrap();
    assert_eq!(back.name(), r.name());
    assert_eq!(back.summary(), r.summary());
    assert_eq!(back.personality(), r.personality());
    assert_eq!(back.scenario(), r.scenario());
    assert_eq!(back.greeting_message(), r.greeting_message());
    assert_eq!(back.example_messages(), r.example_messages());
    assert_eq!(back.created_time(), Some(99));
}

#[test]
fn neutral_card_round_trips_too() {
    let r = card_record();
    let card = export_as_card(&r, &tiny_png(), "neutral", 5).unwrap();
    let back = load_character_card(&card).unwrap();
    assert_eq!(back.name(), r.name());
    assert_eq!(back.summary(), r.summary());
    assert_eq!(back.personality(), r.personality());
    let card2 = r.export_neutral_card(&tiny_png()).unwrap();
    let back2 = load_character_card(&card2).unwrap();
    assert_eq!(back2.name(), r.name());
}

#[test]
fn card_embeds_the_exact_dialect_json() {
    let r = card_record();
    let card = export_as_card(&r, &tiny_png(), "tavernai", 99).unwrap();
    let decoder = png::Decoder::new(card.as_slice());
    let reader = decoder.read_info().unwrap();
    let chunks = &reader.info().uncompressed_latin1_text;
    assert_eq!(chunks.len(), 1);
    assert_eq!(chunks[0].keyword, "chara");
    let decoded = std_b64().decode(&chunks[0].text).unwrap();
    let embedded = String::from_utf8(decoded).unwrap();
    let expected = aichar::export::export_as_json(&r, "tavernai", 99).unwrap();
    assert_eq!(embedded, expected);
}

#[test]
fn card_export_rejects_unknown_dialects() {
    let e = export_as_card(&card_record(), &tiny_png(), "bogus", 5).unwrap_err();
    assert!(matches!(e, CardError::UnsupportedFormat(_)));
}

#[test]
fn card_export_is_case_sensitive_about_neutral() {
    let e = export_as_card(&card_record(), &tiny_png(), "NEUTRAL", 5).unwrap_err();
    assert!(matches!(e, CardError::UnsupportedFormat(_)));
}

#[test]
fn card_export_rejects_a_broken_image() {
    let e = export_as_card(&card_record(), b"not a png at all", "tavernai", 5).unwrap_err();
    assert!(matches!(e, CardError::PngDecode(_)));
}

#[test]
fn arbitrary_bytes_are_rejected_with_chunk_not_found() {
    let e = load_character_card(b"definitely not a card").unwrap_err();
    assert!(matches!(e, CardError::ChunkNotFound(_)));
    assert!(e.message().contains("chara"));
}

#[test]
fn a_png_without_chara_is_rejected_with_chunk_not_found() {
    let e = load_character_card(&tiny_png()).unwrap_err();
    assert!(matches!(e, CardError::ChunkNotFound(_)));
}

#[test]
fn raw_scan_recovers_a_trailing_chunk_layout() {
    let payload = std_b64().encode("{\"name\": \"Zed\", \"description\": \"scanned\"}");
    let bytes = raw_card(payload.as_bytes());
    let r = load_character_card(&bytes).unwrap();
    assert_eq!(r.name(), "Zed");
    assert_eq!(r.summary(), "scanned");
}

#[test]
fn find_chara_chunk_extracts_the_payload_text() {
    let bytes = raw_card(b"PAYLOAD");
    assert_eq!(find_chara_chunk(&bytes).as_deref(), Some("PAYLOAD"));
}

#[test]
fn find_chara_chunk_needs_both_markers() {
    assert!(find_chara_chunk(b"no markers here").is_none());
    let mut no_iend = b"xxtEXtchara".to_vec();
    no_iend.push(0);
    no_iend.extend_from_slice(b"payload");
    assert!(find_chara_chunk(&no_iend).is_none());
    assert!(find_chara_chunk(b"IENDxxxxxxxxxxxxxxxxxxxx").is_none());
}

#[test]
fn an_inverted_marker_layout_is_not_found_and_does_not_panic() {
    let mut v = b"IEND1234".to_vec();
    v.extend_from_slice(b"tEXtchara");
    v.push(0);
    v.extend_from_slice(b"xx");
    assert!(find_chara_chunk(&v).is_none());
    assert!(matches!(load_character_card(&v).unwrap_err(), CardError::ChunkNotFound(_)));
}

#[test]
fn bad_base64_in_a_card_is_rejected_distinctly() {
    let bytes = raw_card(b"!!!not base64!!!");
    let e = load_character_card(&bytes).unwrap_err();
    assert!(matches!(e, CardError::Base64Decode(_)));
}

#[test]
fn invalid_utf8_in_a_card_is_rejected_distinctly() {
    let payload = std_b64().encode([0xffu8, 0xfe, 0x80]);
    let bytes = raw_card(payload.as_bytes());
    let e = load_character_card(&bytes).unwrap_err();
    assert!(matches!(e, CardError::Utf8Decode(_)));
}

#[test]
fn non_json_payload_in_a_card_is_rejected_distinctly() {
    let payload = std_b64().encode("hello, not json");
    let bytes = raw_card(payload.as_bytes());
    let e = load_character_card(&bytes).unwrap_err();
    assert!(matches!(e, CardError::JsonParse(_)));
}

#[test]
fn structured_chunk_wins_over_the_raw_scan() {
    let r = card_record();
    let card = export_as_card(&r, &tiny_png(), "tavernai", 99).unwrap();
    let back = load_character_card(&card).unwrap();
    assert_eq!(back.name(), "Alice");
}

#[test]
fn card_export_preserves_the_image() {
    let r = card_record();
    let card = export_as_card(&r, &tiny_png(), "tavernai", 99).unwrap();
    let decoder = png::Decoder::new(card.as_slice());
    let mut reader = decoder.read_info().unwrap();
    let mut buf = vec![0u8; reader.output_buffer_size()];
    let info = reader.next_frame(&mut buf).unwrap();
    assert_eq!((info.width, info.height), (2, 2));
    assert_eq!(info.color_type, png::ColorType::Rgba);
    assert_eq!(info.bit_depth, png::BitDepth::Eight);
    assert_eq!(&buf[..info.buffer_size()], &[7u8; 16]);
}
