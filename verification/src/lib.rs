//! A character-card library: a canonical persona record (name, summary,
//! personality, scenario, greeting, example dialogue, optional portrait path,
//! optional creation timestamp) converted between generic JSON/YAML, three
//! legacy JSON dialect schemas, and a PNG "character card" that embeds the
//! JSON payload, base64-encoded, in a `tEXt` metadata chunk.

pub mod card;
pub mod dialect;
pub mod error;
pub mod export;
pub mod import;
pub mod jsontext;
pub mod laws;
pub mod record;
pub mod scan;
pub mod strutil;
