//! The ways in which writing a report out fails.

use vstd::prelude::*;
use vstd::string::StringExecFns;

verus! {

/// Why a report was not written out.
#[derive(Debug)]
pub enum SaveError {
    /// The target could not be written; the text is the system's message.
    Io(String),
    /// The report could not be put into JSON; the text is the message of
    /// the JSON library.
    Json(String),
    /// The format cannot be saved.
    UnsupportedFormat,
}

impl SaveError {
    /// The message of the failure.
    pub open spec fn message(&self) -> Seq<char> {
        match self {
            SaveError::Io(msg) => "IO error: "@ + msg@,
            SaveError::Json(msg) => "JSON error: "@ + msg@,
            SaveError::UnsupportedFormat => "Unsupported output format for saving"@,
        }
    }

    /// The message of the failure.
    pub fn to_string(&self) -> (s: String)
        ensures
            s@ == self.message(),
    {
        match self {
            SaveError::Io(msg) => String::from_str("IO error: ").concat(msg.as_str()),
            SaveError::Json(msg) => String::from_str("JSON error: ").concat(msg.as_str()),
            SaveError::UnsupportedFormat => "Unsupported output format for saving".to_owned(),
        }
    }
}

} // verus!
