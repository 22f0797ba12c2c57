//! The PNG character card: embedding a base64-encoded export payload as a
//! `chara` text chunk, and extracting it back — first through the structured
//! chunk reader, then through the raw byte scan as a recovery path.

use vstd::prelude::*;
use vstd::utf8::encode_utf8;
use vstd::utf8::valid_utf8;

use crate::dialect::Dialect;
use crate::dialect::dialect_of;
use crate::dialect::export_view;
use crate::error::CardError;
use crate::export::export_as_json;
use crate::export::export_as_neutral_json;
use crate::export::now_timestamp_millis;
use crate::export::unsupported_format_message;
use crate::import::json_object_wf;
use crate::import::json_raw_view;
use crate::import::load_character_json;
use crate::import::resolve_view;
use crate::jsontext::export_json_text;
use crate::record::CharacterRecord;
use crate::record::RecordView;
use crate::scan::scan_chara_payload;
use crate::scan::scan_payload;

verus! {

// ---------------------------------------------------------------------------
// base64
// ---------------------------------------------------------------------------
/// The base64 rendering of a byte sequence, under the standard alphabet with
/// padding.
pub uninterp spec fn base64_text(bytes: Seq<u8>) -> Seq<char>;

/// Relies on `base64::engine::GeneralPurpose` with the standard alphabet and
/// the default configuration: `Engine::encode` is a pure function of the
/// input bytes, and its output uses only ASCII characters.
#[verifier::external_body]
fn b64_encode(bytes: &[u8]) -> (r: String)
    ensures
        r@ == base64_text(bytes@),
        vstd::utf8::is_ascii_chars(r@),
{
    let engine = base64::engine::GeneralPurpose::new(
        &base64::alphabet::STANDARD,
        base64::engine::GeneralPurposeConfig::new(),
    );
    base64::Engine::encode(&engine, bytes)
}

/// Relies on `Engine::decode` with the same engine: the default
/// configuration requires canonical padding and zero trailing bits, so the
/// accepted texts are exactly the canonical encodings — a success decodes the
/// text to the one byte sequence that encodes to it, and a failure means no
/// byte sequence does.
#[verifier::external_body]
fn b64_decode(text: &str) -> (r: Result<Vec<u8>, String>)
    ensures
        (match r {
            Ok(v) => text@ == base64_text(v@) && (forall|b: Seq<u8>|
                text@ == base64_text(b) ==> v@ == b),
            Err(_) => forall|b: Seq<u8>| text@ != base64_text(b),
        }),
{
    let engine = base64::engine::GeneralPurpose::new(
        &base64::alphabet::STANDARD,
        base64::engine::GeneralPurposeConfig::new(),
    );
    base64::Engine::decode(&engine, text).map_err(|e| format!("{:?}", e))
}

// ---------------------------------------------------------------------------
// UTF-8
// ---------------------------------------------------------------------------
/// What `String::from_utf8_lossy` makes of a byte sequence.
pub uninterp spec fn lossy_utf8(bytes: Seq<u8>) -> Seq<char>;

/// Relies on `String::from_utf8_lossy`: a pure function of the bytes, and
/// (per its documentation) the exact decoding whenever the bytes are valid
/// UTF-8.
#[verifier::external_body]
fn utf8_lossy_string(bytes: &[u8]) -> (r: String)
    ensures
        r@ == lossy_utf8(bytes@),
        valid_utf8(bytes@) ==> encode_utf8(r@) == bytes@,
{
    String::from_utf8_lossy(bytes).into_owned()
}

/// Relies on `String::from_utf8`: succeeds exactly on valid UTF-8 and
/// decodes it; the error carries the description of the failure.
#[verifier::external_body]
fn utf8_to_string(bytes: Vec<u8>) -> (r: Result<String, String>)
    ensures
        (match r {
            Ok(s) => valid_utf8(bytes@) && encode_utf8(s@) == bytes@,
            Err(_) => !valid_utf8(bytes@),
        }),
{
    String::from_utf8(bytes).map_err(|e| format!("{}", e))
}

// ---------------------------------------------------------------------------
// PNG
// ---------------------------------------------------------------------------
#[verifier::external_type_specification]
#[verifier::external_body]
pub struct ExColorType(png::ColorType);

#[verifier::external_type_specification]
#[verifier::external_body]
pub struct ExBitDepth(png::BitDepth);

/// A decoded PNG: dimensions, the first frame's pixel data, the opaque
/// colour parameters needed to re-encode it unchanged, and their numeric
/// codes (the enums' own discriminants), which the contracts speak of. Every
/// value of this type is built by `png_decode_image`, so the codes always
/// mirror the opaque parameters.
struct PngImage {
    width: u32,
    height: u32,
    color_type: png::ColorType,
    bit_depth: png::BitDepth,
    color_code: u8,
    depth_code: u8,
    pixels: Vec<u8>,
}

/// What a PNG stream decodes to, as plain values: width, height, the colour
/// type and bit depth codes, and the first frame's pixel data; `None` when
/// the decoder rejects the stream. Decoding is a pure function of the bytes.
pub uninterp spec fn png_decoded_image(bytes: Seq<u8>) -> Option<(u32, u32, u8, u8, Seq<u8>)>;

/// Whether re-encoding a decoded image with one `tEXt` chunk succeeds: a
/// function of the image parameters, the pixel data, and the chunk pair.
/// (It can fail: an indexed-colour image, for one, cannot be re-encoded
/// without its palette.)
pub uninterp spec fn png_reencode_ok(
    img: (u32, u32, u8, u8, Seq<u8>),
    keyword: Seq<char>,
    text: Seq<char>,
) -> bool;

/// The keyword/text pairs of the uncompressed `tEXt` chunks of a PNG stream
/// as the decoder's header read surfaces them (the chunks standing before
/// the image data), in stream order, or `None` when the stream is not a PNG
/// the decoder accepts.
pub uninterp spec fn png_text_chunks_of(bytes: Seq<u8>) -> Option<Seq<(Seq<char>, Seq<char>)>>;

/// The views of a sequence of keyword/text string pairs.
pub open spec fn string_pairs_view(s: Seq<(String, String)>) -> Seq<(Seq<char>, Seq<char>)> {
    s.map_values(|p: (String, String)| (p.0@, p.1@))
}

/// Relies on `png::Decoder::read_info` and `Info::uncompressed_latin1_text`:
/// decoding is a pure function of the bytes, and the listed pairs are the
/// stream's `tEXt` chunks in order.
#[verifier::external_body]
fn png_text_chunks(bytes: &[u8]) -> (r: Option<Vec<(String, String)>>)
    ensures
        r matches Some(v) ==> png_text_chunks_of(bytes@) == Some(string_pairs_view(v@)),
        r is None ==> png_text_chunks_of(bytes@) is None,
{
    let decoder = png::Decoder::new(bytes);
    let reader = decoder.read_info().ok()?;
    Some(
        reader.info().uncompressed_latin1_text.iter().map(
            |t| (t.keyword.clone(), t.text.clone()),
        ).collect(),
    )
}

/// Relies on `png::Decoder::read_info` and `Reader::next_frame`: succeeds
/// exactly when the decoder accepts the stream, yielding the first frame and
/// the parameters needed to re-encode it; all a pure function of the bytes.
#[verifier::external_body]
fn png_decode_image(image: &[u8]) -> (r: Result<PngImage, String>)
    ensures
        (match r {
            Ok(img) => png_decoded_image(image@) == Some(
                (img.width, img.height, img.color_code, img.depth_code, img.pixels@),
            ),
            Err(_) => png_decoded_image(image@) is None,
        }),
{
    let decoder = png::Decoder::new(image);
    let mut reader = decoder.read_info().map_err(|e| format!("{}", e))?;
    let mut buf = vec![0u8; reader.output_buffer_size()];
    let info = reader.next_frame(&mut buf).map_err(|e| format!("{}", e))?;
    let (width, height, color_type, bit_depth) = (info.width, info.height, info.color_type, info.bit_depth);
    let (color_code, depth_code) = (color_type as u8, bit_depth as u8);
    buf.truncate(info.buffer_size());
    Ok(PngImage { width, height, color_type, bit_depth, color_code, depth_code, pixels: buf })
}

/// Relies on `png::Encoder` with `add_text_chunk`: whether the write
/// succeeds is a function of the image parameters and the chunk pair; a
/// successfully written stream is a PNG whose `tEXt` chunks are exactly the
/// one added pair (the keyword must be 1 to 79 characters; ASCII text is
/// Latin-1 representable, so the chunk round-trips through the decoder
/// unchanged), and it decodes back to the same dimensions, colour
/// parameters and pixel data it was written with.
#[verifier::external_body]
fn png_encode_with_text(img: &PngImage, keyword: &str, text: &str) -> (r: Result<Vec<u8>, String>)
    requires
        keyword.is_ascii(),
        text.is_ascii(),
        1 <= keyword@.len() <= 79,
    ensures
        (r is Ok) == png_reencode_ok(
            (img.width, img.height, img.color_code, img.depth_code, img.pixels@),
            keyword@,
            text@,
        ),
        r matches Ok(out) ==> png_text_chunks_of(out@) == Some(seq![(keyword@, text@)])
            && png_decoded_image(out@) == Some(
            (img.width, img.height, img.color_code, img.depth_code, img.pixels@),
        ),
{
    let mut out: Vec<u8> = Vec::new();
    let mut encoder = png::Encoder::new(&mut out, img.width, img.height);
    encoder.set_color(img.color_type);
    encoder.set_depth(img.bit_depth);
    encoder.add_text_chunk(keyword.to_owned(), text.to_owned()).map_err(|e| format!("{}", e))?;
    let mut writer = encoder.write_header().map_err(|e| format!("{}", e))?;
    writer.write_image_data(&img.pixels).map_err(|e| format!("{}", e))?;
    drop(writer);
    Ok(out)
}

// ---------------------------------------------------------------------------
// Extraction
// ---------------------------------------------------------------------------
/// The first pair with keyword `chara` at or after position `i`.
pub open spec fn first_chara_from(pairs: Seq<(Seq<char>, Seq<char>)>, i: int) -> Option<Seq<char>>
    decreases pairs.len() - i,
{
    if i < 0 || i >= pairs.len() {
        None
    } else if pairs[i].0 == "chara"@ {
        Some(pairs[i].1)
    } else {
        first_chara_from(pairs, i + 1)
    }
}

/// The text of the first `chara` chunk among a stream's text chunks.
pub open spec fn first_chara_text(pairs: Seq<(Seq<char>, Seq<char>)>) -> Option<Seq<char>> {
    first_chara_from(pairs, 0)
}

/// What the raw byte scan yields as text: the scanned payload decoded
/// leniently as UTF-8.
pub open spec fn scan_text(b: Seq<u8>) -> Option<Seq<char>> {
    match scan_payload(b) {
        Some(p) => Some(lossy_utf8(p)),
        None => None,
    }
}

/// The base64 text a card's bytes carry: the first structured `chara` chunk
/// when the decoder surfaces one, else whatever the raw byte scan recovers.
pub open spec fn card_chara_text(b: Seq<u8>) -> Option<Seq<char>> {
    match png_text_chunks_of(b) {
        Some(pairs) => match first_chara_text(pairs) {
            Some(t) => Some(t),
            None => scan_text(b),
        },
        None => scan_text(b),
    }
}

/// Scans `buffer` for a trailing raw `chara` payload and decodes it
/// leniently as text; the recovery path for nonstandard chunk layouts.
pub fn find_chara_chunk(buffer: &[u8]) -> (r: Option<String>)
    ensures
        (match scan_text(buffer@) {
            Some(t) => r matches Some(s) && s@ == t,
            None => r is None,
        }),
{
    match scan_chara_payload(buffer) {
        Some(payload) => Some(utf8_lossy_string(payload)),
        None => None,
    }
}

/// Extracts the base64 `chara` text of a card: the structured chunk reader
/// first, the raw byte scan as fallback.
fn card_base64_text(bytes: &[u8]) -> (r: Option<String>)
    ensures
        (match card_chara_text(bytes@) {
            Some(t) => r matches Some(s) && s@ == t,
            None => r is None,
        }),
{
    let chara_keyword: String = "chara".to_owned();
    match png_text_chunks(bytes) {
        Some(pairs) => {
            let ghost gpairs = string_pairs_view(pairs@);
            proof {
                assert(png_text_chunks_of(bytes@) == Some(gpairs));
            }
            let n = pairs.len();
            let mut i: usize = 0;
            while i < n
                invariant
                    0 <= i <= n,
                    n == pairs@.len(),
                    gpairs == string_pairs_view(pairs@),
                    png_text_chunks_of(bytes@) == Some(gpairs),
                    chara_keyword@ == "chara"@,
                    first_chara_text(gpairs) == first_chara_from(gpairs, i as int),
                decreases n - i,
            {
                let p = &pairs[i];
                proof {
                    assert(gpairs[i as int] == (pairs@[i as int].0@, pairs@[i as int].1@));
                }
                if p.0 == chara_keyword {
                    proof {
                        assert(gpairs.len() == pairs@.len());
                        assert(gpairs[i as int].0 == "chara"@);
                        assert(first_chara_from(gpairs, i as int) == Some(gpairs[i as int].1));
                        assert(card_chara_text(bytes@) == Some(gpairs[i as int].1));
                    }
                    let val = p.1.clone();
                    proof {
                        assert(val@ == gpairs[i as int].1);
                    }
                    return Some(val);
                }
                i = i + 1;
            }
            find_chara_chunk(bytes)
        },
        None => find_chara_chunk(bytes),
    }
}

/// The fixed message of a `ChunkNotFound` error: it names the probable
/// causes and the remediation steps.
pub open spec fn chunk_not_found_message() -> Seq<char> {
    "Failed to find 'chara' metadata (tEXt chunk) in the PNG file. This may occur due to:\n1. The file is not a valid character card (Tavern Card V1 format).\n2. The file may be corrupted or incomplete.\n3. The character data might be stored in a different format.\n\nPlease ensure that:\n- You are using a file created by a compatible character creation tool.\n- The file hasn't been modified or damaged.\n- You are using the correct file format for your character data.\n\nIf the problem persists, try re-exporting the character from its original creation tool."@
}

fn chunk_not_found_error() -> (r: CardError)
    ensures
        r matches CardError::ChunkNotFound(m) && m@ == chunk_not_found_message(),
{
    CardError::ChunkNotFound(
        "Failed to find 'chara' metadata (tEXt chunk) in the PNG file. This may occur due to:\n1. The file is not a valid character card (Tavern Card V1 format).\n2. The file may be corrupted or incomplete.\n3. The character data might be stored in a different format.\n\nPlease ensure that:\n- You are using a file created by a compatible character creation tool.\n- The file hasn't been modified or damaged.\n- You are using the correct file format for your character data.\n\nIf the problem persists, try re-exporting the character from its original creation tool.".to_owned(),
    )
}

/// Imports a record from the bytes of a character card. The `chara` payload
/// is located (structured read, then raw scan), base64-decoded, read as
/// UTF-8, and imported as a JSON document; each stage that fails reports its
/// own error variant, and a buffer with no payload at all reports
/// `ChunkNotFound` with the fixed cause-and-remediation message. A card that
/// embeds the base64 encoding of a JSON object is decoded back to exactly
/// the record that object resolves to.
pub fn load_character_card(bytes: &[u8]) -> (r: Result<CharacterRecord, CardError>)
    ensures
        (match card_chara_text(bytes@) {
            None => r matches Err(e) && e matches CardError::ChunkNotFound(m) && m@
                == chunk_not_found_message(),
            Some(t) => !(exists|b: Seq<u8>| t == base64_text(b)) ==> (r matches Err(e)
                && e matches CardError::Base64Decode(_)),
        }),
        forall|b: Seq<u8>|
            (card_chara_text(bytes@) == Some(#[trigger] base64_text(b)) && !valid_utf8(b)) ==> (
            r matches Err(e) && e matches CardError::Utf8Decode(_)),
        forall|j: Seq<char>|
            (card_chara_text(bytes@) == Some(base64_text(#[trigger] encode_utf8(j)))
                && !json_object_wf(j)) ==> (r matches Err(e) && e matches CardError::JsonParse(_)),
        forall|j: Seq<char>|
            (card_chara_text(bytes@) == Some(base64_text(#[trigger] encode_utf8(j)))
                && json_object_wf(j)) ==> (r matches Ok(c) && c@ == resolve_view(json_raw_view(j))),
{
    broadcast use vstd::utf8::encode_utf8_valid_utf8, vstd::utf8::encode_utf8_decode_utf8;

    let b64 = match card_base64_text(bytes) {
        Some(s) => s,
        None => {
            return Err(chunk_not_found_error());
        },
    };
    let raw = match b64_decode(b64.as_str()) {
        Ok(v) => v,
        Err(m) => {
            let mut msg =
                "Error while decoding base64 character data from character card: ".to_owned();
            msg.append(m.as_str());
            return Err(CardError::Base64Decode(msg));
        },
    };
    let text = match utf8_to_string(raw) {
        Ok(s) => s,
        Err(m) => {
            let mut msg = "Error while parsing decoded base64 bytes to utf8 string: ".to_owned();
            msg.append(m.as_str());
            return Err(CardError::Utf8Decode(msg));
        },
    };
    proof {
        assert forall|j: Seq<char>| encode_utf8(text@) == #[trigger] encode_utf8(j) implies text@
            == j by {
            vstd::utf8::encode_utf8_decode_utf8(text@);
            vstd::utf8::encode_utf8_decode_utf8(j);
        }
    }
    let r = load_character_json(text.as_str());
    match r {
        Ok(c) => Ok(c),
        Err(_) => Err(
            CardError::JsonParse("Your image file does not contain correct json data".to_owned()),
        ),
    }
}

// ---------------------------------------------------------------------------
// Embedding
// ---------------------------------------------------------------------------
/// The JSON payload a card export embeds: the neutral document for the exact
/// identifier `neutral`, else the document of the named dialect. (The arm
/// for an unknown identifier is never reached: such an export fails.)
pub open spec fn card_payload_json(v: RecordView, format_id: Seq<char>, now: i64) -> Seq<char> {
    if format_id == "neutral"@ {
        export_json_text(export_view(v, Dialect::Neutral, now))
    } else {
        match dialect_of(format_id) {
            Some(d) => export_json_text(export_view(v, d, now)),
            None => Seq::empty(),
        }
    }
}

/// Exports `character` as a card: the JSON payload for `format_type`
/// The base64 text a card export under `format_id` at time `now` embeds.
pub open spec fn card_b64_text(v: RecordView, format_id: Seq<char>, now: i64) -> Seq<char> {
    base64_text(encode_utf8(card_payload_json(v, format_id, now)))
}

/// The complete outcome of a card export whose format identifier was
/// accepted: an undecodable image reports `PngDecode`; a decodable image
/// whose re-encoding with the payload chunk succeeds yields a PNG that
/// decodes back to the same dimensions, colour parameters and pixel data and
/// whose sole text chunk is the `chara` payload; a re-encoding failure
/// reports `PngEncode`.
pub open spec fn card_export_outcome(
    v: RecordView,
    image: Seq<u8>,
    format_id: Seq<char>,
    now: i64,
    r: Result<Vec<u8>, CardError>,
) -> bool {
    match png_decoded_image(image) {
        None => r matches Err(e) && e matches CardError::PngDecode(_),
        Some(img) => if png_reencode_ok(img, "chara"@, card_b64_text(v, format_id, now)) {
            r matches Ok(out) && png_text_chunks_of(out@) == Some(
                seq![("chara"@, card_b64_text(v, format_id, now))],
            ) && png_decoded_image(out@) == Some(img)
        } else {
            r matches Err(e) && e matches CardError::PngEncode(_)
        },
    }
}

/// (`neutral` exactly, or a dialect identifier) is base64-encoded and
/// embedded into the given PNG image as the sole `chara` text chunk, the
/// image's pixel data and colour parameters carried over unchanged. An
/// unknown identifier is rejected with `UnsupportedFormat`; a rejected or
/// unwritable image reports `PngDecode` / `PngEncode`.
pub fn export_as_card(
    character: &CharacterRecord,
    image: &[u8],
    format_type: &str,
    now: i64,
) -> (r: Result<Vec<u8>, CardError>)
    ensures
        (!(format_type@ == "neutral"@) && dialect_of(format_type@) is None) <==> (r matches Err(e)
            && e matches CardError::UnsupportedFormat(m) && m@ == unsupported_format_message()),
        (format_type@ == "neutral"@ || dialect_of(format_type@) is Some) ==> card_export_outcome(
            character@,
            image@,
            format_type@,
            now,
            r,
        ),
{
    let neutral: String = "neutral".to_owned();
    let format_owned: String = format_type.to_owned();
    let json: String = if format_owned == neutral {
        export_as_neutral_json(character, now)
    } else {
        match export_as_json(character, format_type, now) {
            Ok(s) => s,
            Err(e) => {
                return Err(e);
            },
        }
    };
    let b64 = b64_encode(json.as_str().as_bytes());
    let img = match png_decode_image(image) {
        Ok(i) => i,
        Err(m) => {
            let mut msg = "Failed to read PNG image for the card export: ".to_owned();
            msg.append(m.as_str());
            return Err(CardError::PngDecode(msg));
        },
    };
    proof {
        reveal_strlit("chara");
        assert(vstd::utf8::is_ascii_chars("chara"@));
    }
    match png_encode_with_text(&img, "chara", b64.as_str()) {
        Ok(out) => Ok(out),
        Err(m) => {
            let mut msg = "Failed to write PNG card: ".to_owned();
            msg.append(m.as_str());
            Err(CardError::PngEncode(msg))
        },
    }
}

impl CharacterRecord {
    /// The portrait path a card export reads its PNG from, or `MissingImage`
    /// when the record has none.
    pub fn card_image_path(&self) -> (r: Result<&String, CardError>)
        ensures
            (match self@.image_path {
                Some(p) => r matches Ok(s) && s@ == p,
                None => r matches Err(e) && e matches CardError::MissingImage(_),
            }),
    {
        match self.image_path() {
            Some(p) => Ok(p),
            None => Err(
                CardError::MissingImage(
                    "To export a character using the character card, you must provide a png file that will hold the encoded data. You can add the image path to the CharacterClass object using the property: .image_path = \"png/file/path\"".to_owned(),
                ),
            ),
        }
    }

    /// Exports this record as a card into the given PNG image bytes, under
    /// the identifier `format_type`, stamped with the current wall-clock
    /// time.
    pub fn export_card(&self, image: &[u8], format_type: &str) -> (r: Result<Vec<u8>, CardError>)
        ensures
            (!(format_type@ == "neutral"@) && dialect_of(format_type@) is None) <==> (r matches Err(
                e,
            ) && e matches CardError::UnsupportedFormat(_)),
            (format_type@ == "neutral"@ || dialect_of(format_type@) is Some) ==> exists|t: i64|
                card_export_outcome(self@, image@, format_type@, t, r),
    {
        let now = now_timestamp_millis();
        let r = export_as_card(self, image, format_type, now);
        proof {
            if format_type@ == "neutral"@ || dialect_of(format_type@) is Some {
                assert(card_export_outcome(self@, image@, format_type@, now, r));
            }
        }
        r
    }

    /// Exports this record as a card in the neutral superset shape.
    pub fn export_neutral_card(&self, image: &[u8]) -> (r: Result<Vec<u8>, CardError>)
        ensures
            exists|t: i64| card_export_outcome(self@, image@, "neutral"@, t, r),
            r matches Err(e) ==> !(e matches CardError::UnsupportedFormat(_)),
    {
        self.export_card(image, "neutral")
    }
}

} // verus!

