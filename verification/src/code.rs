//! Result codes reported by SQLite.

use vstd::prelude::*;

verus! {

/// A result code as reported by SQLite.
///
/// Every primary result code has a variant of its own, as do the extended
/// codes of the constraint family. Any other code, such as the remaining
/// extended codes, is held by `Other`. `Code::new` builds the canonical
/// code for a raw value, and `Code::raw` gives the raw value back.
#[allow(non_camel_case_types)]
#[derive(Clone, Copy, Debug, PartialEq, Eq, Structural)]
pub enum Code {
    /// Successful result.
    OK,
    /// Generic error.
    ERROR,
    /// Internal logic error in SQLite.
    INTERNAL,
    /// Access permission denied.
    PERM,
    /// Callback routine requested an abort.
    ABORT,
    /// The database file is locked.
    BUSY,
    /// A table in the database is locked.
    LOCKED,
    /// A memory allocation failed.
    NOMEM,
    /// Attempt to write a readonly database.
    READONLY,
    /// Operation terminated by an interrupt.
    INTERRUPT,
    /// Some kind of disk I/O error occurred.
    IOERR,
    /// The database disk image is malformed.
    CORRUPT,
    /// Unknown opcode in a file control.
    NOTFOUND,
    /// Insertion failed because the database is full.
    FULL,
    /// Unable to open the database file.
    CANTOPEN,
    /// Database lock protocol error.
    PROTOCOL,
    /// Internal use only.
    EMPTY,
    /// The database schema changed.
    SCHEMA,
    /// String or blob exceeds size limit.
    TOOBIG,
    /// Abort due to constraint violation.
    CONSTRAINT,
    /// Data type mismatch.
    MISMATCH,
    /// Library used incorrectly.
    MISUSE,
    /// Uses OS features not supported on host.
    NOLFS,
    /// Authorization denied.
    AUTH,
    /// Not used.
    FORMAT,
    /// A bind parameter index is out of range.
    RANGE,
    /// File opened that is not a database file.
    NOTADB,
    /// Notifications from `sqlite3_log`.
    NOTICE,
    /// Warnings from `sqlite3_log`.
    WARNING,
    /// A row of output is ready.
    ROW,
    /// Evaluation has finished.
    DONE,
    /// A CHECK constraint failed.
    CONSTRAINT_CHECK,
    /// A foreign key constraint failed.
    CONSTRAINT_FOREIGNKEY,
    /// A NOT NULL constraint failed.
    CONSTRAINT_NOTNULL,
    /// A PRIMARY KEY constraint failed.
    CONSTRAINT_PRIMARYKEY,
    /// A UNIQUE constraint failed.
    CONSTRAINT_UNIQUE,
    /// Any other code, by its raw value.
    Other(i32),
}

/// The raw values of the codes that have a variant of their own, in the
/// order of the variants.
pub open spec fn named_raw(c: Code) -> Option<i32> {
    match c {
        Code::OK => Some(0i32),
        Code::ERROR => Some(1i32),
        Code::INTERNAL => Some(2i32),
        Code::PERM => Some(3i32),
        Code::ABORT => Some(4i32),
        Code::BUSY => Some(5i32),
        Code::LOCKED => Some(6i32),
        Code::NOMEM => Some(7i32),
        Code::READONLY => Some(8i32),
        Code::INTERRUPT => Some(9i32),
        Code::IOERR => Some(10i32),
        Code::CORRUPT => Some(11i32),
        Code::NOTFOUND => Some(12i32),
        Code::FULL => Some(13i32),
        Code::CANTOPEN => Some(14i32),
        Code::PROTOCOL => Some(15i32),
        Code::EMPTY => Some(16i32),
        Code::SCHEMA => Some(17i32),
        Code::TOOBIG => Some(18i32),
        Code::CONSTRAINT => Some(19i32),
        Code::MISMATCH => Some(20i32),
        Code::MISUSE => Some(21i32),
        Code::NOLFS => Some(22i32),
        Code::AUTH => Some(23i32),
        Code::FORMAT => Some(24i32),
        Code::RANGE => Some(25i32),
        Code::NOTADB => Some(26i32),
        Code::NOTICE => Some(27i32),
        Code::WARNING => Some(28i32),
        Code::ROW => Some(100i32),
        Code::DONE => Some(101i32),
        Code::CONSTRAINT_CHECK => Some(275i32),
        Code::CONSTRAINT_FOREIGNKEY => Some(787i32),
        Code::CONSTRAINT_NOTNULL => Some(1299i32),
        Code::CONSTRAINT_PRIMARYKEY => Some(1555i32),
        Code::CONSTRAINT_UNIQUE => Some(2067i32),
        Code::Other(_) => None,
    }
}

/// The raw value of a code.
pub open spec fn code_raw(c: Code) -> i32 {
    match c {
        Code::Other(raw) => raw,
        _ => named_raw(c)->Some_0,
    }
}

/// Whether some variant of its own stands for this raw value.
pub open spec fn is_named_raw(raw: i32) -> bool {
    ||| 0 <= raw <= 28
    ||| raw == 100
    ||| raw == 101
    ||| raw == 275
    ||| raw == 787
    ||| raw == 1299
    ||| raw == 1555
    ||| raw == 2067
}

/// A code is canonical when `Other` holds no raw value that has a variant
/// of its own; `Code::new` only builds canonical codes.
pub open spec fn code_canonical(c: Code) -> bool {
    match c {
        Code::Other(raw) => !is_named_raw(raw),
        _ => true,
    }
}

/// The canonical code of a raw value.
pub open spec fn code_of(raw: i32) -> Code {
    match raw {
        0 => Code::OK,
        1 => Code::ERROR,
        2 => Code::INTERNAL,
        3 => Code::PERM,
        4 => Code::ABORT,
        5 => Code::BUSY,
        6 => Code::LOCKED,
        7 => Code::NOMEM,
        8 => Code::READONLY,
        9 => Code::INTERRUPT,
        10 => Code::IOERR,
        11 => Code::CORRUPT,
        12 => Code::NOTFOUND,
        13 => Code::FULL,
        14 => Code::CANTOPEN,
        15 => Code::PROTOCOL,
        16 => Code::EMPTY,
        17 => Code::SCHEMA,
        18 => Code::TOOBIG,
        19 => Code::CONSTRAINT,
        20 => Code::MISMATCH,
        21 => Code::MISUSE,
        22 => Code::NOLFS,
        23 => Code::AUTH,
        24 => Code::FORMAT,
        25 => Code::RANGE,
        26 => Code::NOTADB,
        27 => Code::NOTICE,
        28 => Code::WARNING,
        100 => Code::ROW,
        101 => Code::DONE,
        275 => Code::CONSTRAINT_CHECK,
        787 => Code::CONSTRAINT_FOREIGNKEY,
        1299 => Code::CONSTRAINT_NOTNULL,
        1555 => Code::CONSTRAINT_PRIMARYKEY,
        2067 => Code::CONSTRAINT_UNIQUE,
        _ => Code::Other(raw),
    }
}

impl Code {
    /// Construct the canonical code for a raw SQLite result code.
    pub fn new(raw: i32) -> (c: Code)
        ensures
            c == code_of(raw),
    {
        match raw {
            0 => Code::OK,
            1 => Code::ERROR,
            2 => Code::INTERNAL,
            3 => Code::PERM,
            4 => Code::ABORT,
            5 => Code::BUSY,
            6 => Code::LOCKED,
            7 => Code::NOMEM,
            8 => Code::READONLY,
            9 => Code::INTERRUPT,
            10 => Code::IOERR,
            11 => Code::CORRUPT,
            12 => Code::NOTFOUND,
            13 => Code::FULL,
            14 => Code::CANTOPEN,
            15 => Code::PROTOCOL,
            16 => Code::EMPTY,
            17 => Code::SCHEMA,
            18 => Code::TOOBIG,
            19 => Code::CONSTRAINT,
            20 => Code::MISMATCH,
            21 => Code::MISUSE,
            22 => Code::NOLFS,
            23 => Code::AUTH,
            24 => Code::FORMAT,
            25 => Code::RANGE,
            26 => Code::NOTADB,
            27 => Code::NOTICE,
            28 => Code::WARNING,
            100 => Code::ROW,
            101 => Code::DONE,
            275 => Code::CONSTRAINT_CHECK,
            787 => Code::CONSTRAINT_FOREIGNKEY,
            1299 => Code::CONSTRAINT_NOTNULL,
            1555 => Code::CONSTRAINT_PRIMARYKEY,
            2067 => Code::CONSTRAINT_UNIQUE,
            _ => Code::Other(raw),
        }
    }

    /// The raw SQLite result code.
    pub fn raw(&self) -> (r: i32)
        ensures
            r == code_raw(*self),
    {
        match self {
            Code::OK => 0,
            Code::ERROR => 1,
            Code::INTERNAL => 2,
            Code::PERM => 3,
            Code::ABORT => 4,
            Code::BUSY => 5,
            Code::LOCKED => 6,
            Code::NOMEM => 7,
            Code::READONLY => 8,
            Code::INTERRUPT => 9,
            Code::IOERR => 10,
            Code::CORRUPT => 11,
            Code::NOTFOUND => 12,
            Code::FULL => 13,
            Code::CANTOPEN => 14,
            Code::PROTOCOL => 15,
            Code::EMPTY => 16,
            Code::SCHEMA => 17,
            Code::TOOBIG => 18,
            Code::CONSTRAINT => 19,
            Code::MISMATCH => 20,
            Code::MISUSE => 21,
            Code::NOLFS => 22,
            Code::AUTH => 23,
            Code::FORMAT => 24,
            Code::RANGE => 25,
            Code::NOTADB => 26,
            Code::NOTICE => 27,
            Code::WARNING => 28,
            Code::ROW => 100,
            Code::DONE => 101,
            Code::CONSTRAINT_CHECK => 275,
            Code::CONSTRAINT_FOREIGNKEY => 787,
            Code::CONSTRAINT_NOTNULL => 1299,
            Code::CONSTRAINT_PRIMARYKEY => 1555,
            Code::CONSTRAINT_UNIQUE => 2067,
            Code::Other(raw) => *raw,
        }
    }
}

/// Building the code of the raw value of a canonical code gives that code
/// back.
pub proof fn lemma_code_round_trip(c: Code)
    requires
        code_canonical(c),
    ensures
        code_of(code_raw(c)) == c,
{
}

/// The raw value of the code built from a raw value is that raw value, and
/// the code is canonical.
pub proof fn lemma_raw_round_trip(raw: i32)
    ensures
        code_raw(code_of(raw)) == raw,
        code_canonical(code_of(raw)),
{
}

/// Two canonical codes are equal exactly when their raw values are.
pub proof fn lemma_code_raw_injective(a: Code, b: Code)
    requires
        code_canonical(a),
        code_canonical(b),
    ensures
        (a == b) <==> (code_raw(a) == code_raw(b)),
{
}

} // verus!
