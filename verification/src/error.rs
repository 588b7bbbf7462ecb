//! The error type shared by the whole prompt session.

use vstd::prelude::*;

verus! {

use vstd::string::StringExecFns;

/// The ways a prompt session can fail or end without a value.
#[derive(Debug, Clone, PartialEq, Eq)]
pub enum Error {
    /// The terminal backend failed; carries its message.
    Io(String),
    /// The user cancelled the prompt. An expected outcome, not a defect.
    Cancel,
    /// A prompt was configured inconsistently and refused to start.
    Config(String),
    /// A prompt reported an unrecoverable failure of its own.
    Prompt(String),
}

impl Error {
    /// A human-readable description of the error.
    pub fn message(&self) -> (r: String)
        ensures
            self is Cancel ==> r@ == "Operation canceled"@,
            self matches Error::Io(m) ==> r@ == "IO error: "@ + m@,
            self matches Error::Config(m) ==> r@ == "Config error: "@ + m@,
            self matches Error::Prompt(m) ==> r@ == "Prompt error: "@ + m@,
    {
        match self {
            Error::Io(m) => {
                let mut s = String::from_str("IO error: ");
                s.append(m.as_str());
                s
            },
            Error::Cancel => String::from_str("Operation canceled"),
            Error::Config(m) => {
                let mut s = String::from_str("Config error: ");
                s.append(m.as_str());
                s
            },
            Error::Prompt(m) => {
                let mut s = String::from_str("Prompt error: ");
                s.append(m.as_str());
                s
            },
        }
    }
}

} // verus!
