//! The failures that a run can end in.

use crate::text::{decimal_text, push_decimal, push_text};
use vstd::prelude::*;

verus! {

/// What can be wrong with the video file that was named.
#[derive(Debug, Clone, Copy, PartialEq, Eq, Structural)]
pub enum InputError {
    /// The path leads to nothing, or to something that is neither a regular
    /// file nor a directory.
    NotFound,
    /// The path leads to a directory.
    IsDirectory,
    /// The file is shorter than one 64 KiB window.
    TooSmall,
}

/// Every failure of the library, one variant for each cause.
#[derive(Debug, Clone, PartialEq, Eq)]
pub enum OsdError {
    /// The video file cannot be used.
    Input(InputError),
    /// The catalog answered with a status other than 200.
    Remote { status: u16, body: String },
    /// The catalog knows no subtitle for the query.
    NoResults,
    /// There is no candidate to choose from.
    Empty,
    /// The user closed the dialog without choosing.
    SelectionCancelled,
    /// The dialog program could not be started.
    ChooserUnavailable,
    /// The dialog named no row of the list that it was given.
    InvalidSelection,
    /// An answer is not JSON, or not of the expected shape.
    Decode,
    /// A local read or write failed.
    Io,
    /// A request took too long.
    Timeout,
    /// A header value holds a character that HTTP does not allow.
    InvalidHeader,
    /// A text that should be an absolute URL is none.
    InvalidUrl,
    /// The run was handed something that it did not wait for.
    UnexpectedEvent,
}

/// What the user is told of a failure.
pub open spec fn message_of(error: OsdError) -> Seq<char> {
    match error {
        OsdError::Input(InputError::NotFound) => "File not found."@,
        OsdError::Input(InputError::IsDirectory) => "The path must point to a file."@,
        OsdError::Input(InputError::TooSmall) => "File size too small."@,
        OsdError::Remote { status, body } => "Bad request: "@ + decimal_text(status as nat) + ", "@
            + body@,
        OsdError::NoResults => "No subtitles found."@,
        OsdError::Empty => "The catalog listed no subtitle."@,
        OsdError::SelectionCancelled => "Movie not selected."@,
        OsdError::ChooserUnavailable => "Dialog program not found."@,
        OsdError::InvalidSelection => "Error selecting movie."@,
        OsdError::Decode => "The catalog sent an answer that cannot be read."@,
        OsdError::Io => "Reading or writing a file failed."@,
        OsdError::Timeout => "The request took too long."@,
        OsdError::InvalidHeader => "A configured value cannot be sent as a header."@,
        OsdError::InvalidUrl => "The address is no absolute URL."@,
        OsdError::UnexpectedEvent => "The run was handed an event out of turn."@,
    }
}

impl OsdError {
    /// What the user is told of this failure.
    pub fn message(&self) -> (text: String)
        ensures
            text@ == message_of(*self),
    {
        match self {
            OsdError::Input(InputError::NotFound) => "File not found.".to_owned(),
            OsdError::Input(InputError::IsDirectory) => "The path must point to a file.".to_owned(),
            OsdError::Input(InputError::TooSmall) => "File size too small.".to_owned(),
            OsdError::Remote { status, body } => {
                let mut text = "Bad request: ".to_owned();
                push_decimal(&mut text, *status as u64);
                push_text(&mut text, ", ");
                push_text(&mut text, body.as_str());
                text
            },
            OsdError::NoResults => "No subtitles found.".to_owned(),
            OsdError::Empty => "The catalog listed no subtitle.".to_owned(),
            OsdError::SelectionCancelled => "Movie not selected.".to_owned(),
            OsdError::ChooserUnavailable => "Dialog program not found.".to_owned(),
            OsdError::InvalidSelection => "Error selecting movie.".to_owned(),
            OsdError::Decode => "The catalog sent an answer that cannot be read.".to_owned(),
            OsdError::Io => "Reading or writing a file failed.".to_owned(),
            OsdError::Timeout => "The request took too long.".to_owned(),
            OsdError::InvalidHeader => "A configured value cannot be sent as a header.".to_owned(),
            OsdError::InvalidUrl => "The address is no absolute URL.".to_owned(),
            OsdError::UnexpectedEvent => "The run was handed an event out of turn.".to_owned(),
        }
    }

    /// Whether this is the failure `Remote` with the given status and body.
    pub open spec fn is_remote(self, status: u16, body: Seq<char>) -> bool {
        self matches OsdError::Remote { status: s, body: b } && s == status && b@ == body
    }

    /// Whether `other` is the same failure as this: the same variant, and
    /// for `Remote` the same status and the same body.
    pub open spec fn same_as(self, other: OsdError) -> bool {
        match self {
            OsdError::Remote { status, body } => other.is_remote(status, body@),
            _ => self == other,
        }
    }
}

} // verus!
