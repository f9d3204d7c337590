//! What can go wrong while a text is formatted.

use crate::commands::kind::Format;
use vstd::prelude::*;
use vstd::string::*;

verus! {

/// Why a text was not formatted.
#[derive(Debug, PartialEq, Eq)]
pub enum FormatError {
    /// Inline text that none of the three grammars accepts, or a file whose
    /// extension is none of the three tags.
    UnsupportedInput,
    /// A tag handed to the dispatch that names no grammar.
    UnsupportedFileType,
    /// The text breaks the grammar it was to be read in; `detail` is what the
    /// parser said.
    Invalid { format: Format, detail: String },
    /// The printer refused the parsed document; `detail` is what it said.
    Unprintable { format: Format, detail: String },
}

/// A `FormatError` with its texts as sequences of characters.
pub enum Failure {
    UnsupportedInput,
    UnsupportedFileType,
    Invalid { format: Format, detail: Seq<char> },
    Unprintable { format: Format, detail: Seq<char> },
}

impl View for FormatError {
    type V = Failure;

    open spec fn view(&self) -> Failure {
        match *self {
            FormatError::UnsupportedInput => Failure::UnsupportedInput,
            FormatError::UnsupportedFileType => Failure::UnsupportedFileType,
            FormatError::Invalid { format, detail } => Failure::Invalid { format, detail: detail@ },
            FormatError::Unprintable { format, detail } => Failure::Unprintable {
                format,
                detail: detail@,
            },
        }
    }
}

impl Failure {
    /// The message under which the failure is reported.
    pub open spec fn message(self) -> Seq<char> {
        match self {
            Failure::UnsupportedInput => "Unsupported input type"@,
            Failure::UnsupportedFileType => "Unsupported file type"@,
            Failure::Invalid { format, detail } => "Invalid "@ + format.spec_name() + " file"@,
            Failure::Unprintable { format, detail } => detail,
        }
    }

    /// The line that tells what the parser found, owed only where the text
    /// broke its grammar.
    pub open spec fn diagnostic(self) -> Option<Seq<char>> {
        match self {
            Failure::Invalid { format, detail } => Some(
                "Error parsing "@ + format.spec_name() + ": "@ + detail,
            ),
            _ => None,
        }
    }
}

impl FormatError {
    /// The message under which the error is reported.
    pub fn message(&self) -> (r: String)
        ensures
            r@ == self@.message(),
    {
        match self {
            FormatError::UnsupportedInput => String::from_str("Unsupported input type"),
            FormatError::UnsupportedFileType => String::from_str("Unsupported file type"),
            FormatError::Invalid { format, detail } => {
                let mut line = String::from_str("Invalid ");
                line.append(format.name());
                line.append(" file");
                line
            },
            FormatError::Unprintable { format, detail } => detail.clone(),
        }
    }

    /// The line that tells what the parser found, where there is one.
    pub fn diagnostic(&self) -> (r: Option<String>)
        ensures
            r is Some <==> self@.diagnostic() is Some,
            r matches Some(line) ==> Some(line@) == self@.diagnostic(),
    {
        match self {
            FormatError::Invalid { format, detail } => {
                let mut line = String::from_str("Error parsing ");
                line.append(format.name());
                line.append(": ");
                line.append(detail.as_str());
                Some(line)
            },
            _ => None,
        }
    }
}

} // verus!
