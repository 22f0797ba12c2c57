//! The canonical character record: the in-memory persona that every import
//! produces and every export reads.

use vstd::prelude::*;

use crate::error::CardError;
use crate::strutil::ends_with_ci;
use crate::strutil::has_png_extension;

verus! {

/// The mathematical value of a [`CharacterRecord`]: its text fields as
/// character sequences, and the two optional fields.
pub ghost struct RecordView {
    pub name: Seq<char>,
    pub summary: Seq<char>,
    pub personality: Seq<char>,
    pub scenario: Seq<char>,
    pub greeting_message: Seq<char>,
    pub example_messages: Seq<char>,
    pub image_path: Option<Seq<char>>,
    pub created_time: Option<i64>,
}

/// A persona record. The six text fields are always present (an absent field
/// degrades to the empty string); `image_path` and `created_time` stay `None`
/// until a source supplies them. Exports never mutate the record.
#[derive(Debug)]
pub struct CharacterRecord {
    name: String,
    summary: String,
    personality: String,
    scenario: String,
    greeting_message: String,
    example_messages: String,
    image_path: Option<String>,
    created_time: Option<i64>,
}

impl View for CharacterRecord {
    type V = RecordView;

    closed spec fn view(&self) -> RecordView {
        RecordView {
            name: self.name@,
            summary: self.summary@,
            personality: self.personality@,
            scenario: self.scenario@,
            greeting_message: self.greeting_message@,
            example_messages: self.example_messages@,
            image_path: match self.image_path {
                Some(p) => Some(p@),
                None => None,
            },
            created_time: self.created_time,
        }
    }
}

/// What the filesystem reports about a candidate image path. The library does
/// no I/O itself; a caller that wants the validated setter stats the path and
/// hands in the outcome.
#[derive(Clone, Copy, Debug, PartialEq, Eq, Structural)]
pub enum FileStatus {
    /// The path names an existing regular file.
    IsFile,
    /// The path exists but is not a regular file.
    NotAFile,
    /// Nothing exists at the path.
    Missing,
}

/// Whether the validated image-path setter accepts `path` under `status`:
/// the path must end in `.png` (case-insensitively) and name an existing file.
pub open spec fn image_path_ok(path: Seq<char>, status: FileStatus) -> bool {
    ends_with_ci(path, ".png"@) && status == FileStatus::IsFile
}

/// The message of the `InvalidImagePath` error a rejected setter call
/// carries: the extension is checked first, then what the filesystem
/// reported about the path.
pub open spec fn invalid_image_path_message(path: Seq<char>, status: FileStatus) -> Seq<char> {
    if !ends_with_ci(path, ".png"@) {
        "Invalid file extension. Image file must have a .png extension"@
    } else if status == FileStatus::NotAFile {
        "Specified path is not a file"@
    } else {
        "'"@ + path + "' file does not exist"@
    }
}

impl CharacterRecord {
    /// Builds a record from explicit field values. The image path is recorded
    /// as given, unvalidated, and no creation timestamp is set.
    pub fn new(
        name: &str,
        summary: &str,
        personality: &str,
        scenario: &str,
        greeting_message: &str,
        example_messages: &str,
        image_path: &str,
    ) -> (r: CharacterRecord)
        ensures
            r@ == (RecordView {
                name: name@,
                summary: summary@,
                personality: personality@,
                scenario: scenario@,
                greeting_message: greeting_message@,
                example_messages: example_messages@,
                image_path: Some(image_path@),
                created_time: None,
            }),
    {
        CharacterRecord {
            name: name.to_owned(),
            summary: summary.to_owned(),
            personality: personality.to_owned(),
            scenario: scenario.to_owned(),
            greeting_message: greeting_message.to_owned(),
            example_messages: example_messages.to_owned(),
            image_path: Some(image_path.to_owned()),
            created_time: None,
        }
    }

    /// Assembles a record from already-resolved parts; used by the importers.
    pub fn from_parts(
        name: String,
        summary: String,
        personality: String,
        scenario: String,
        greeting_message: String,
        example_messages: String,
        image_path: Option<String>,
        created_time: Option<i64>,
    ) -> (r: CharacterRecord)
        ensures
            r@ == (RecordView {
                name: name@,
                summary: summary@,
                personality: personality@,
                scenario: scenario@,
                greeting_message: greeting_message@,
                example_messages: example_messages@,
                image_path: match image_path {
                    Some(p) => Some(p@),
                    None => None,
                },
                created_time: created_time,
            }),
    {
        CharacterRecord {
            name,
            summary,
            personality,
            scenario,
            greeting_message,
            example_messages,
            image_path,
            created_time,
        }
    }

    pub fn name(&self) -> (r: &String)
        ensures
            r@ == self@.name,
    {
        &self.name
    }

    pub fn summary(&self) -> (r: &String)
        ensures
            r@ == self@.summary,
    {
        &self.summary
    }

    pub fn personality(&self) -> (r: &String)
        ensures
            r@ == self@.personality,
    {
        &self.personality
    }

    pub fn scenario(&self) -> (r: &String)
        ensures
            r@ == self@.scenario,
    {
        &self.scenario
    }

    pub fn greeting_message(&self) -> (r: &String)
        ensures
            r@ == self@.greeting_message,
    {
        &self.greeting_message
    }

    pub fn example_messages(&self) -> (r: &String)
        ensures
            r@ == self@.example_messages,
    {
        &self.example_messages
    }

    pub fn image_path(&self) -> (r: Option<&String>)
        ensures
            match r {
                Some(p) => self@.image_path == Some(p@),
                None => self@.image_path is None,
            },
    {
        self.image_path.as_ref()
    }

    pub fn created_time(&self) -> (r: Option<i64>)
        ensures
            r == self@.created_time,
    {
        self.created_time
    }

    pub fn set_name(&mut self, name: &str)
        ensures
            final(self)@ == (RecordView { name: name@, ..old(self)@ }),
    {
        self.name = name.to_owned();
    }

    pub fn set_summary(&mut self, summary: &str)
        ensures
            final(self)@ == (RecordView { summary: summary@, ..old(self)@ }),
    {
        self.summary = summary.to_owned();
    }

    pub fn set_personality(&mut self, personality: &str)
        ensures
            final(self)@ == (RecordView { personality: personality@, ..old(self)@ }),
    {
        self.personality = personality.to_owned();
    }

    pub fn set_scenario(&mut self, scenario: &str)
        ensures
            final(self)@ == (RecordView { scenario: scenario@, ..old(self)@ }),
    {
        self.scenario = scenario.to_owned();
    }

    pub fn set_greeting_message(&mut self, greeting_message: &str)
        ensures
            final(self)@ == (RecordView { greeting_message: greeting_message@, ..old(self)@ }),
    {
        self.greeting_message = greeting_message.to_owned();
    }

    pub fn set_example_messages(&mut self, example_messages: &str)
        ensures
            final(self)@ == (RecordView { example_messages: example_messages@, ..old(self)@ }),
    {
        self.example_messages = example_messages.to_owned();
    }

    /// Sets the portrait path after validation: the path must end in `.png`
    /// and, per the caller-supplied `status`, name an existing regular file.
    /// On rejection the record is unchanged and the error says which check
    /// failed.
    pub fn set_image_path(&mut self, image_path: &str, status: FileStatus) -> (r: Result<
        (),
        CardError,
    >)
        ensures
            image_path_ok(image_path@, status) ==> r is Ok && final(self)@ == (RecordView {
                image_path: Some(image_path@),
                ..old(self)@
            }),
            !image_path_ok(image_path@, status) ==> (r matches Err(e)
                && e matches CardError::InvalidImagePath(m) && m@ == invalid_image_path_message(
                image_path@,
                status,
            ) && final(self)@ == old(self)@),
    {
        if !has_png_extension(image_path) {
            return Err(
                CardError::InvalidImagePath(
                    "Invalid file extension. Image file must have a .png extension".to_owned(),
                ),
            );
        }
        match status {
            FileStatus::IsFile => {
                self.image_path = Some(image_path.to_owned());
                Ok(())
            },
            FileStatus::NotAFile => Err(
                CardError::InvalidImagePath("Specified path is not a file".to_owned()),
            ),
            FileStatus::Missing => {
                let mut m = "'".to_owned();
                m.append(image_path);
                m.append("' file does not exist");
                proof {
                    assert(m@ =~= invalid_image_path_message(image_path@, status));
                }
                Err(CardError::InvalidImagePath(m))
            },
        }
    }

    /// Records the path a card file was loaded from, without validation: the
    /// caller has just read the file, so it exists by construction.
    pub fn set_source_image_path(&mut self, image_path: &str)
        ensures
            final(self)@ == (RecordView { image_path: Some(image_path@), ..old(self)@ }),
    {
        self.image_path = Some(image_path.to_owned());
    }
}

/// The fixed-order diagnostic rendering of a record: every field on its own
/// labelled line, with `Image Path: None` when no portrait is set.
pub open spec fn data_summary_view(v: RecordView) -> Seq<char> {
    "Name: "@ + v.name + "\n"@ + "Summary: "@ + v.summary + "\n"@ + "Personality: "@
        + v.personality + "\n"@ + "Scenario: "@ + v.scenario + "\n"@ + "Greeting Message: "@
        + v.greeting_message + "\n"@ + "Example Messages: \n"@ + v.example_messages + "\n"@
        + match v.image_path {
        Some(p) => "Image Path: "@ + p,
        None => "Image Path: None"@,
    }
}

impl CharacterRecord {
    /// Renders the record as a human-readable block, for diagnostics.
    pub fn data_summary(&self) -> (r: String)
        ensures
            r@ == data_summary_view(self@),
    {
        let mut s = String::new();
        s.append("Name: ");
        s.append(self.name.as_str());
        s.append("\n");
        s.append("Summary: ");
        s.append(self.summary.as_str());
        s.append("\n");
        s.append("Personality: ");
        s.append(self.personality.as_str());
        s.append("\n");
        s.append("Scenario: ");
        s.append(self.scenario.as_str());
        s.append("\n");
        s.append("Greeting Message: ");
        s.append(self.greeting_message.as_str());
        s.append("\n");
        s.append("Example Messages: \n");
        s.append(self.example_messages.as_str());
        s.append("\n");
        match &self.image_path {
            Some(p) => {
                s.append("Image Path: ");
                s.append(p.as_str());
            },
            None => {
                s.append("Image Path: None");
            },
        }
        proof {
            assert(s@ =~= data_summary_view(self@));
        }
        s
    }
}

/// Builds a record from explicit field values, recording the given image path
/// unvalidated and leaving the creation timestamp unset.
pub fn create_character(
    name: &str,
    summary: &str,
    personality: &str,
    scenario: &str,
    greeting_message: &str,
    example_messages: &str,
    image_path: &str,
) -> (r: CharacterRecord)
    ensures
        r@ == (RecordView {
            name: name@,
            summary: summary@,
            personality: personality@,
            scenario: scenario@,
            greeting_message: greeting_message@,
            example_messages: example_messages@,
            image_path: Some(image_path@),
            created_time: None,
        }),
{
    CharacterRecord::new(
        name,
        summary,
        personality,
        scenario,
        greeting_message,
        example_messages,
        image_path,
    )
}

} // verus!
