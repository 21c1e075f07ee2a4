//! The formats in which a report is written out.

use vstd::prelude::*;
use vstd::string::StringExecFns;
use crate::syntax::text::str_eq;

verus! {

/// A format of the report.
#[derive(Debug, Clone, Copy, PartialEq, Eq, Structural, Hash)]
pub enum OutputFormat {
    Text,
    Json,
    Csv,
}

impl Default for OutputFormat {
    fn default() -> (format: OutputFormat)
        ensures
            format == OutputFormat::Text,
    {
        OutputFormat::Text
    }
}

impl OutputFormat {
    /// The format that the word `s` names: `text`, `json` or `csv`.
    pub open spec fn named(s: Seq<char>) -> Option<OutputFormat> {
        if s == "text"@ {
            Some(OutputFormat::Text)
        } else if s == "json"@ {
            Some(OutputFormat::Json)
        } else if s == "csv"@ {
            Some(OutputFormat::Csv)
        } else {
            None
        }
    }

    /// The message for a word that names no format.
    pub open spec fn refusal(s: Seq<char>) -> Seq<char> {
        "Invalid output format: "@ + s
    }

    /// Reads a format from its name; any other word is refused with a
    /// message that quotes it.
    pub fn parse(s: &str) -> (r: Result<OutputFormat, String>)
        ensures
            match r {
                Ok(format) => OutputFormat::named(s@) == Some(format),
                Err(msg) => OutputFormat::named(s@) is None && msg@ == OutputFormat::refusal(s@),
            },
    {
        if str_eq(s, "text") {
            Ok(OutputFormat::Text)
        } else if str_eq(s, "json") {
            Ok(OutputFormat::Json)
        } else if str_eq(s, "csv") {
            Ok(OutputFormat::Csv)
        } else {
            Err(String::from_str("Invalid output format: ").concat(s))
        }
    }

    /// The format's name as it is displayed.
    pub open spec fn spec_name(self) -> Seq<char> {
        match self {
            OutputFormat::Text => "Text"@,
            OutputFormat::Json => "Json"@,
            OutputFormat::Csv => "Csv"@,
        }
    }

    /// The format's name as it is displayed.
    pub fn to_string(&self) -> (s: String)
        ensures
            s@ == self.spec_name(),
    {
        match self {
            OutputFormat::Text => "Text".to_owned(),
            OutputFormat::Json => "Json".to_owned(),
            OutputFormat::Csv => "Csv".to_owned(),
        }
    }
}

impl std::str::FromStr for OutputFormat {
    type Err = String;

    /// Reads a format from its name, as `parse` does.
    fn from_str(s: &str) -> (r: Result<Self, Self::Err>)
        ensures
            match r {
                Ok(format) => OutputFormat::named(s@) == Some(format),
                Err(msg) => OutputFormat::named(s@) is None && msg@ == OutputFormat::refusal(s@),
            },
    {
        OutputFormat::parse(s)
    }
}

} // verus!
