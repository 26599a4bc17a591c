//! The error kinds of a run. Every error is fatal: nothing is retried, and
//! the whole run aborts on the first one.

use vstd::prelude::*;

verus! {

use vstd::string::StringExecFns;

/// What went wrong: a network-level failure on an HTTP call, a malformed or
/// unexpected XML response, or a filesystem failure. Each carries the
/// underlying cause as text.
#[derive(Debug)]
pub enum Error {
    Transport(String),
    Parse(String),
    Io(String),
}

/// The rendered message of an error: its kind as a prefix, then the
/// underlying cause.
pub open spec fn spec_message(e: Error) -> Seq<char> {
    match e {
        Error::Transport(cause) => "transport error: "@ + cause@,
        Error::Parse(cause) => "parse error: "@ + cause@,
        Error::Io(cause) => "io error: "@ + cause@,
    }
}

impl Error {
    /// Renders the error as text: kind prefix, then cause.
    pub fn message(&self) -> (r: String)
        ensures
            r@ == spec_message(*self),
    {
        match self {
            Error::Transport(cause) => String::from_str("transport error: ").concat(
                cause.as_str(),
            ),
            Error::Parse(cause) => String::from_str("parse error: ").concat(cause.as_str()),
            Error::Io(cause) => String::from_str("io error: ").concat(cause.as_str()),
        }
    }

    /// Whether this error came from XML deserialization.
    pub fn is_parse(&self) -> (r: bool)
        ensures
            r == (self is Parse),
    {
        match self {
            Error::Parse(_) => true,
            _ => false,
        }
    }
}

} // verus!
