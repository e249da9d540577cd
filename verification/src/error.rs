//! What can go wrong while the clipboard manager works.

use vstd::prelude::*;

verus! {

/// The failures of the clipboard manager. The first three are met by the
/// program around this library, which hands over the reason as text; the
/// last one is found here.
#[derive(Clone, Debug, PartialEq, Eq)]
pub enum Error {
    /// The command file is missing or cannot be read.
    ReadDBError(String),
    /// The command file does not hold a list of commands.
    ParseDBError(String),
    /// The system clipboard could not be read or written.
    ClipboardError(String),
    /// No row is selected, or the selected row lies past the end of the list.
    IndexError,
}

impl Error {
    /// The text that describes the failure.
    pub open spec fn spec_message(&self) -> Seq<char> {
        match self {
            Error::ReadDBError(reason) => "error reading the DB file: "@ + reason@,
            Error::ParseDBError(reason) => "error parsing the DB file: "@ + reason@,
            Error::ClipboardError(reason) => "error accessing the clipboard: "@ + reason@,
            Error::IndexError => "no command at the selected row"@,
        }
    }

    /// The text that describes the failure, for a status line or a log.
    pub fn message(&self) -> (text: String)
        ensures
            text@ == self.spec_message(),
    {
        match self {
            Error::ReadDBError(reason) => {
                "error reading the DB file: ".to_owned().concat(reason.as_str())
            },
            Error::ParseDBError(reason) => {
                "error parsing the DB file: ".to_owned().concat(reason.as_str())
            },
            Error::ClipboardError(reason) => {
                "error accessing the clipboard: ".to_owned().concat(reason.as_str())
            },
            Error::IndexError => "no command at the selected row".to_owned(),
        }
    }
}

} // verus!
