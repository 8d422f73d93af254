use vstd::prelude::*;
use vstd::string::StringExecFns;

verus! {

/// What stops a run. Each kind carries the text it reports.
#[derive(Debug, Clone)]
pub enum RunError {
    /// A file could not be read; carries the reader's message.
    Io(String),
    /// A document could not be turned into a configuration; carries the
    /// parser's message.
    Parse(String),
    /// The requested output format is not one the reporter knows; carries
    /// the format as it was given.
    UnsupportedFormat(String),
}

/// The line printed for an output format that is not recognised.
pub open spec fn unsupported_format_message(format: Seq<char>) -> Seq<char> {
    "Error: Unknown output format '"@ + format + "'"@
}

impl RunError {
    /// The text carried by the error.
    pub open spec fn detail(&self) -> Seq<char> {
        match self {
            RunError::Io(m) => m@,
            RunError::Parse(m) => m@,
            RunError::UnsupportedFormat(f) => f@,
        }
    }

    /// The line printed on standard error for this error.
    pub open spec fn message_spec(&self) -> Seq<char> {
        match self {
            RunError::Io(m) => "Error: "@ + m@,
            RunError::Parse(m) => "Error: "@ + m@,
            RunError::UnsupportedFormat(f) => unsupported_format_message(f@),
        }
    }

    /// The line printed on standard error for this error.
    pub fn message(&self) -> (r: String)
        ensures
            r@ == self.message_spec(),
    {
        match self {
            RunError::Io(m) => {
                let mut r = String::from_str("Error: ");
                r.append(m.as_str());
                r
            },
            RunError::Parse(m) => {
                let mut r = String::from_str("Error: ");
                r.append(m.as_str());
                r
            },
            RunError::UnsupportedFormat(f) => {
                let mut r = String::from_str("Error: Unknown output format '");
                r.append(f.as_str());
                r.append("'");
                r
            },
        }
    }

    /// The process exit status for this error: always non-zero, and exactly 1
    /// for an unrecognised output format.
    pub fn exit_code(&self) -> (r: i32)
        ensures
            r == 1,
    {
        1
    }
}

} // verus!
