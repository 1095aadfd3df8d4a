//! Errors reported by this library.

use vstd::prelude::*;

use crate::code::{code_of, Code};
use crate::engine::Failure;
use crate::text::{decimal, push_decimal};

verus! {

/// An error: a result code and a message.
#[derive(Debug, PartialEq, Eq)]
pub struct Error {
    code: Code,
    message: String,
}

impl Error {
    /// The code of this error.
    pub closed spec fn code_spec(&self) -> Code {
        self.code
    }

    /// The message of this error.
    pub closed spec fn message_spec(&self) -> Seq<char> {
        self.message@
    }

    /// Construct a new error from the specified code and message.
    pub fn new(code: Code, message: &str) -> (e: Error)
        ensures
            e.code_spec() == code,
            e.message_spec() == message@,
    {
        Error { code, message: String::from_str(message) }
    }

    /// Construct a new error from a code and an owned message.
    pub fn with_message(code: Code, message: String) -> (e: Error)
        ensures
            e.code_spec() == code,
            e.message_spec() == message@,
    {
        Error { code, message }
    }

    /// Construct a new generic error with the specified message.
    pub fn custom(message: &str) -> (e: Error)
        ensures
            e.code_spec() == Code::ERROR,
            e.message_spec() == message@,
    {
        Error::new(Code::ERROR, message)
    }

    /// The error for a failure reported by the rusqlite crate.
    pub(crate) fn from_failure(f: Failure) -> (e: Error)
        ensures
            e.code_spec() == failure_code(f.code),
            e.message_spec() == f.message@,
    {
        let code = match f.code {
            Some(raw) => Code::new(raw),
            None => Code::ERROR,
        };
        Error { code, message: f.message }
    }

    /// The error code that caused this error.
    pub fn code(&self) -> (c: Code)
        ensures
            c == self.code_spec(),
    {
        self.code
    }

    /// The message of this error.
    pub fn message(&self) -> (m: &str)
        ensures
            m@ == self.message_spec(),
    {
        self.message.as_str()
    }
}

/// The code of a failure: the code SQLite reported, or `ERROR` for a
/// failure that SQLite did not report.
pub open spec fn failure_code(code: Option<i32>) -> Code {
    match code {
        Some(raw) => code_of(raw),
        None => Code::ERROR,
    }
}

/// Indicates that a database was not found.
#[derive(Debug)]
#[non_exhaustive]
pub struct DatabaseNotFound;

impl DatabaseNotFound {
    /// The message of this error.
    pub fn message(&self) -> (m: &'static str)
        ensures
            m@ == "database not found"@,
    {
        "database not found"
    }
}

/// What kind of database object is not thread safe.
#[derive(Clone, Copy, Debug, PartialEq, Eq, Structural)]
pub enum NotThreadSafeKind {
    /// A connection.
    Connection,
    /// A statement.
    Statement,
}

/// Error raised when attempting to convert a database object into a
/// thread-safe container, but the database is not configured to be
/// thread-safe.
#[derive(Debug)]
pub struct NotThreadSafe {
    kind: NotThreadSafeKind,
}

impl NotThreadSafe {
    /// The kind of object this error is about.
    pub closed spec fn kind_spec(&self) -> NotThreadSafeKind {
        self.kind
    }

    /// Construct a new not thread safe error for a connection.
    pub fn connection() -> (e: NotThreadSafe)
        ensures
            e.kind_spec() == NotThreadSafeKind::Connection,
    {
        NotThreadSafe { kind: NotThreadSafeKind::Connection }
    }

    /// Construct a new not thread safe error for a statement.
    pub fn statement() -> (e: NotThreadSafe)
        ensures
            e.kind_spec() == NotThreadSafeKind::Statement,
    {
        NotThreadSafe { kind: NotThreadSafeKind::Statement }
    }

    /// The kind of object this error is about.
    pub fn kind(&self) -> (k: NotThreadSafeKind)
        ensures
            k == self.kind_spec(),
    {
        self.kind
    }

    /// The message of this error.
    pub fn message(&self) -> (m: &'static str)
        ensures
            m@ == (match self.kind_spec() {
                NotThreadSafeKind::Connection => "a connection object is not thread safe"@,
                NotThreadSafeKind::Statement => "a statement object is not thread safe"@,
            }),
    {
        match self.kind {
            NotThreadSafeKind::Connection => "a connection object is not thread safe",
            NotThreadSafeKind::Statement => "a statement object is not thread safe",
        }
    }
}

/// The message of a capacity error.
pub open spec fn capacity_message(len: nat, max: nat) -> Seq<char> {
    "size "@ + decimal(len) + " exceeds fixed buffer size "@ + decimal(max)
}

/// Error raised when a value does not fit in a fixed-size buffer.
#[derive(Debug)]
pub struct CapacityError {
    len: usize,
    max: usize,
}

impl CapacityError {
    /// The size of the value that did not fit.
    pub closed spec fn len_spec(&self) -> usize {
        self.len
    }

    /// The capacity of the buffer.
    pub closed spec fn max_spec(&self) -> usize {
        self.max
    }

    /// Construct a new capacity error.
    pub fn capacity(len: usize, max: usize) -> (e: CapacityError)
        ensures
            e.len_spec() == len,
            e.max_spec() == max,
    {
        CapacityError { len, max }
    }

    /// The size of the value that did not fit.
    pub fn len(&self) -> (l: usize)
        ensures
            l == self.len_spec(),
    {
        self.len
    }

    /// The capacity of the buffer.
    pub fn max(&self) -> (m: usize)
        ensures
            m == self.max_spec(),
    {
        self.max
    }

    /// The message of this error, such as
    /// `size 4 exceeds fixed buffer size 3`.
    pub fn message(&self) -> (m: String)
        ensures
            m@ == capacity_message(self.len_spec() as nat, self.max_spec() as nat),
    {
        let mut m = String::from_str("size ");
        push_decimal(&mut m, self.len as u128);
        m.append(" exceeds fixed buffer size ");
        push_decimal(&mut m, self.max as u128);
        m
    }
}

} // verus!
