//! The errors that the engine reports, with the exit code and the message of each.

use vstd::prelude::*;
use crate::domain::text::{decimal, decimal_digits, joined};

verus! {

/// Why an operation did not succeed.
#[derive(Debug, Clone, PartialEq, Eq)]
pub enum DomainError {
    /// No thread has the given full or short identifier.
    ThreadNotFound(String),
    /// No message has the given full or short identifier.
    MessageNotFound(String),
    /// A short identifier is the prefix of this many records.
    AmbiguousShortId(String, usize),
    /// The store failed; the text is the store's own.
    Database(String),
    /// A value supplied by the caller fails a precondition that the engine enforces.
    InvalidInput(String),
    /// A remote peer could not be reached or answered with a failure.
    Network(String),
    /// A document could not be read as what it was said to be.
    Parse(String),
    /// A file could not be read or written.
    Io(String),
}

impl DomainError {
    /// The error is the caller's: a value that was refused or could not be read.
    pub open spec fn is_input(&self) -> bool {
        self is InvalidInput || self is Parse
    }

    /// The message of the error: what kind it is, then its detail.
    pub open spec fn text(&self) -> Seq<char> {
        match self {
            DomainError::ThreadNotFound(id) => "thread not found: "@ + id@,
            DomainError::MessageNotFound(id) => "message not found: "@ + id@,
            DomainError::AmbiguousShortId(id, n) => "ambiguous short id '"@ + id@
                + "': matched "@ + decimal_digits(*n as nat) + " records"@,
            DomainError::Database(detail) => "database error: "@ + detail@,
            DomainError::InvalidInput(detail) => "invalid input: "@ + detail@,
            DomainError::Network(detail) => "network error: "@ + detail@,
            DomainError::Parse(detail) => "parse error: "@ + detail@,
            DomainError::Io(detail) => "I/O error: "@ + detail@,
        }
    }

    /// The exit code of a process that ends on this error: 2 for an input error,
    /// 1 for any other.
    pub fn exit_code(&self) -> (code: i32)
        ensures
            code == (if self.is_input() { 2i32 } else { 1i32 }),
    {
        match self {
            DomainError::InvalidInput(_) | DomainError::Parse(_) => 2,
            _ => 1,
        }
    }

    /// Whether the error is an input error, that is, whether its exit code is 2.
    pub fn is_input_error(&self) -> (r: bool)
        ensures
            r == self.is_input(),
    {
        self.exit_code() == 2
    }

    /// The message of the error.
    pub fn to_string(&self) -> (s: String)
        ensures
            s@ == self.text(),
    {
        match self {
            DomainError::ThreadNotFound(id) => joined("thread not found: ", id.as_str()),
            DomainError::MessageNotFound(id) => joined("message not found: ", id.as_str()),
            DomainError::AmbiguousShortId(id, n) => {
                let a = joined("ambiguous short id '", id.as_str());
                let b = joined(a.as_str(), "': matched ");
                let count = decimal(*n);
                let c = joined(b.as_str(), count.as_str());
                joined(c.as_str(), " records")
            },
            DomainError::Database(detail) => joined("database error: ", detail.as_str()),
            DomainError::InvalidInput(detail) => joined("invalid input: ", detail.as_str()),
            DomainError::Network(detail) => joined("network error: ", detail.as_str()),
            DomainError::Parse(detail) => joined("parse error: ", detail.as_str()),
            DomainError::Io(detail) => joined("I/O error: ", detail.as_str()),
        }
    }
}

} // verus!
