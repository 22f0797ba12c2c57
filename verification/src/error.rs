//! The error taxonomy of the library. Every fallible operation reports one of
//! these variants; none panics on malformed input.

use vstd::prelude::*;

verus! {

/// A failure of an import, export or validation step. Each stage of the
/// card pipeline reports its own variant, so a caller can always tell which
/// stage rejected the input; the carried `String` is a human-readable message.
#[derive(Debug)]
pub enum CardError {
    /// An export was asked for under an unknown dialect identifier.
    UnsupportedFormat(String),
    /// `image_path` was set to a path without a `.png` extension, to a
    /// missing file, or to something that is not a file.
    InvalidImagePath(String),
    /// A card export was attempted on a record with no `image_path`.
    MissingImage(String),
    /// The PNG decoder rejected the portrait or card bytes.
    PngDecode(String),
    /// The PNG encoder failed while writing the card.
    PngEncode(String),
    /// Neither the structured chunk reader nor the raw byte scan found a
    /// `chara` payload in the card bytes.
    ChunkNotFound(String),
    /// The embedded payload was not valid base64.
    Base64Decode(String),
    /// The decoded payload was not valid UTF-8.
    Utf8Decode(String),
    /// The payload or input text was not a JSON object.
    JsonParse(String),
    /// The input text was not a YAML mapping.
    YamlParse(String),
    /// The YAML serializer failed while rendering an export.
    YamlEmit(String),
}

/// The message carried by an error, as a sequence of characters.
pub open spec fn error_message(e: CardError) -> Seq<char> {
    match e {
        CardError::UnsupportedFormat(m) => m@,
        CardError::InvalidImagePath(m) => m@,
        CardError::MissingImage(m) => m@,
        CardError::PngDecode(m) => m@,
        CardError::PngEncode(m) => m@,
        CardError::ChunkNotFound(m) => m@,
        CardError::Base64Decode(m) => m@,
        CardError::Utf8Decode(m) => m@,
        CardError::JsonParse(m) => m@,
        CardError::YamlParse(m) => m@,
        CardError::YamlEmit(m) => m@,
    }
}

impl CardError {
    /// The human-readable message carried by this error.
    pub fn message(&self) -> (r: &String)
        ensures
            r@ == error_message(*self),
    {
        match self {
            CardError::UnsupportedFormat(m) => m,
            CardError::InvalidImagePath(m) => m,
            CardError::MissingImage(m) => m,
            CardError::PngDecode(m) => m,
            CardError::PngEncode(m) => m,
            CardError::ChunkNotFound(m) => m,
            CardError::Base64Decode(m) => m,
            CardError::Utf8Decode(m) => m,
            CardError::JsonParse(m) => m,
            CardError::YamlParse(m) => m,
            CardError::YamlEmit(m) => m,
        }
    }
}

} // verus!
