//! Calls into the rusqlite crate, which runs SQLite for this library.
//!
//! Every function here is trusted: Verus reads its contract and not its
//! body. Each body makes one call, into rusqlite or (for `keep_row`) into
//! std, and converts what goes in and what comes out; errors come back as a
//! `Failure` of plain values. The records that the library's types keep for
//! the proofs (the flags and busy mode of a connection, the values bound to
//! the parameters of a statement, the answers of a batch) change only
//! through these contracts; verified code never assigns them.

use vstd::prelude::*;
use vstd::string::StringSliceAdditionalSpecFns;

use crate::batch::{answer_of, Batch};
use crate::connection::{BusyMode, Connection};
use crate::statement::{after_failed_bind, Statement};
use crate::value::{Cell, ColumnValue};
use rusqlite::types::ValueRef as V;
use rusqlite::Batch as SqlBatch;
use rusqlite::Connection as SqlConnection;
use rusqlite::Row as SqlRow;
use rusqlite::Rows as SqlRows;
use rusqlite::Statement as SqlStatement;

verus! {

/// A failure reported by the rusqlite crate: the extended SQLite result code
/// when SQLite reported the failure, and the text of the error.
pub struct Failure {
    /// The extended SQLite result code, if SQLite reported the failure.
    pub code: Option<i32>,
    /// The text of the error.
    pub message: String,
}

#[verifier::external_type_specification]
#[verifier::external_body]
pub struct ExSqlConnection(SqlConnection);

#[verifier::external_type_specification]
#[verifier::external_body]
pub struct ExSqlStatement<'conn>(SqlStatement<'conn>);

#[verifier::external_type_specification]
#[verifier::external_body]
pub struct ExSqlRow<'stmt>(SqlRow<'stmt>);

#[verifier::external_type_specification]
#[verifier::external_body]
pub struct ExSqlRows<'stmt>(SqlRows<'stmt>);

#[verifier::external_type_specification]
#[verifier::external_body]
pub struct ExSqlBatch<'conn, 'sql>(SqlBatch<'conn, 'sql>);

/// Calls `rusqlite::Connection::open_with_flags` with the path and the flag
/// bits as given. The connection records those flags, and the busy timeout
/// of 5000 milliseconds that rusqlite sets on every connection it opens
/// (`InnerConnection::open_with_flags`). Nothing is claimed of whether the
/// open succeeds.
#[verifier::external_body]
pub fn open(path: &str, flags: i32) -> (r: Result<Connection, Failure>)
    ensures
        r matches Ok(c) ==> c.flags_spec() == flags && c.busy_spec() == BusyMode::Timeout(5000),
{
    match rusqlite::Connection::open_with_flags(path, rusqlite::OpenFlags::from_bits_retain(flags)) {
        Ok(db) => Ok(Connection { db, flags: Ghost(flags), busy: Ghost(BusyMode::Timeout(5000)) }),
        Err(e) => Err(Failure { code: e.sqlite_extended_error_code(), message: e.to_string() }),
    }
}

/// Calls `rusqlite::Batch::new`, which starts at the beginning of `sql`
/// with no statement given yet.
#[verifier::external_body]
pub fn batch<'conn, 'sql>(c: &'conn Connection, sql: &'sql str) -> (b: Batch<'conn, 'sql>)
    ensures
        b.is_fresh(),
        b.text_len() == sql.spec_bytes().len(),
{
    Batch {
        inner: SqlBatch::new(&c.db, sql),
        current: None,
        answers: Ghost(Seq::empty()),
        reports: Ghost(Seq::empty()),
        text_len: Ghost(sql.spec_bytes().len()),
        consumed: Ghost(0),
    }
}

/// Calls `next` of rusqlite's `FallibleIterator` on a batch. rusqlite
/// prepares statements from where it stopped, skipping those that are
/// empty, until one is not: it gives that one, having moved past at least
/// one more byte of the text, and gives `None` once the whole text is gone
/// through (at once when it already was). A failure leaves it no further
/// back than it was. The statement given is held by the batch in place of
/// the one before, whose last report is recorded beside the answer.
#[verifier::external_body]
pub fn batch_next<'conn, 'sql>(b: &mut Batch<'conn, 'sql>) -> (r: Result<bool, Failure>)
    ensures
        final(b).text_len() == old(b).text_len(),
        final(b).answers() == old(b).answers().push(answer_of(r)),
        final(b).reports() == old(b).reports().push(
            match old(b).current() {
                Some(s) => s.last_step(),
                None => None,
            },
        ),
        old(b).consumed() <= final(b).consumed() <= final(b).text_len(),
        r matches Ok(true) ==> old(b).consumed() < final(b).consumed(),
        r matches Ok(false) ==> final(b).consumed() == final(b).text_len(),
        old(b).consumed() == old(b).text_len() ==> r matches Ok(false),
        r matches Ok(true) ==> (final(b).current() matches Some(s) && s.current_row() is None
            && s.bindings() == Map::<i32, Cell>::empty() && s.last_step() is None),
        !(r matches Ok(true)) ==> final(b).current() is None,
{
    b.current = None;
    match rusqlite::fallible_iterator::FallibleIterator::next(&mut b.inner) {
        Ok(Some(handle)) => {
            b.current = Some(Statement { handle, row: None, bound: Ghost(Map::empty()), stepped: Ghost(None), width: Ghost(0) });
            Ok(true)
        },
        Ok(None) => Ok(false),
        Err(e) => Err(Failure { code: e.sqlite_extended_error_code(), message: e.to_string() }),
    }
}

/// Calls `rusqlite::Connection::prepare_with_flags` with the flag bits as
/// given. rusqlite fails with `MultipleStatement` when `sql` holds more than
/// one statement. Nothing is claimed of the outcome.
#[verifier::external_body]
pub fn prepare<'conn>(db: &'conn SqlConnection, sql: &str, flags: u32) -> (r: Result<SqlStatement<'conn>, Failure>) {
    match db.prepare_with_flags(sql, rusqlite::PrepFlags::from_bits_retain(flags)) {
        Ok(stmt) => Ok(stmt),
        Err(e) => Err(Failure { code: e.sqlite_extended_error_code(), message: e.to_string() }),
    }
}

/// Calls `rusqlite::Connection::changes`: the number of rows changed by the
/// most recent INSERT, UPDATE or DELETE.
#[verifier::external_body]
pub fn changes(db: &SqlConnection) -> (n: u64) {
    db.changes()
}

/// Calls `rusqlite::Connection::total_changes`: the number of rows changed
/// since the connection was opened.
#[verifier::external_body]
pub fn total_changes(db: &SqlConnection) -> (n: u64) {
    db.total_changes()
}

/// Calls `rusqlite::Connection::last_insert_rowid`.
#[verifier::external_body]
pub fn last_insert_rowid(db: &SqlConnection) -> (n: i64) {
    db.last_insert_rowid()
}

/// Calls `rusqlite::Connection::is_readonly`, which fails when `name` is
/// not the name of a database of the connection.
#[verifier::external_body]
pub fn is_readonly(db: &SqlConnection, name: &str) -> (r: Result<bool, Failure>) {
    match db.is_readonly(name) {
        Ok(b) => Ok(b),
        Err(e) => Err(Failure { code: e.sqlite_extended_error_code(), message: e.to_string() }),
    }
}

/// Calls `rusqlite::Connection::busy_timeout` with a duration of `ms`
/// milliseconds. As rusqlite documents, it replaces any busy handler, and a
/// duration of zero turns busy handling off. Nothing is claimed on failure.
#[verifier::external_body]
pub fn busy_timeout(c: &mut Connection, ms: u32) -> (r: Result<(), Failure>)
    requires
        ms <= 0x7fff_ffff,
    ensures
        final(c).flags_spec() == old(c).flags_spec(),
        r is Ok ==> final(c).busy_spec() == (if ms == 0 {
            BusyMode::Off
        } else {
            BusyMode::Timeout(ms)
        }),
{
    match c.db.busy_timeout(std::time::Duration::from_millis(ms as u64)) {
        Ok(()) => Ok(()),
        Err(e) => Err(Failure { code: e.sqlite_extended_error_code(), message: e.to_string() }),
    }
}

/// Calls `rusqlite::Connection::busy_handler` with the callback, which
/// replaces any busy handler; the callback's argument, the number of times it
/// was called before for the same lock, is handed over as a `usize`. Nothing
/// is claimed on failure.
#[verifier::external_body]
pub fn busy_handler<F: FnMut(usize) -> bool + Send + 'static>(c: &mut Connection, mut callback: F) -> (r: Result<(), Failure>)
    ensures
        final(c).flags_spec() == old(c).flags_spec(),
        r is Ok ==> final(c).busy_spec() == BusyMode::Handler,
{
    match c.db.busy_handler(Some(move |n: i32| callback(n as usize))) {
        Ok(()) => Ok(()),
        Err(e) => Err(Failure { code: e.sqlite_extended_error_code(), message: e.to_string() }),
    }
}

/// Calls `rusqlite::Connection::busy_handler` with no handler, which removes
/// any busy handler: as rusqlite documents, a locked database then fails at
/// once with `BUSY`. Nothing is claimed on failure.
#[verifier::external_body]
pub fn clear_busy_handler(c: &mut Connection) -> (r: Result<(), Failure>)
    ensures
        final(c).flags_spec() == old(c).flags_spec(),
        r is Ok ==> final(c).busy_spec() == BusyMode::Off,
{
    match c.db.busy_handler(None::<fn(i32) -> bool>) {
        Ok(()) => Ok(()),
        Err(e) => Err(Failure { code: e.sqlite_extended_error_code(), message: e.to_string() }),
    }
}

/// Calls `rusqlite::Statement::raw_query`, which gives the rows object
/// through which the statement is stepped. It steps nothing itself; when the
/// rows object is dropped, it resets the statement.
#[verifier::external_body]
pub fn raw_query<'a, 'conn>(s: &'a mut SqlStatement<'conn>) -> (rows: SqlRows<'a>) {
    s.raw_query()
}

/// Calls `next` of `rusqlite::Rows`, which steps the statement once and
/// gives the row it came to, or `None` at the end of the rows. On the end
/// and on an error rusqlite resets the statement. Nothing is claimed of the
/// outcome.
#[verifier::external_body]
pub fn rows_next<'a, 'stmt>(rows: &'a mut SqlRows<'stmt>) -> (r: Result<Option<&'a SqlRow<'stmt>>, Failure>) {
    match rows.next() {
        Ok(row) => Ok(row),
        Err(e) => Err(Failure { code: e.sqlite_extended_error_code(), message: e.to_string() }),
    }
}

/// Calls `std::mem::forget` on the rows object. Its drop would reset the
/// statement, and the row it came to is to stay current.
#[verifier::external_body]
pub fn keep_row(rows: SqlRows<'_>) {
    std::mem::forget(rows)
}

/// Calls `AsRef::as_ref` on a row, which gives the statement it is a row
/// of.
#[verifier::external_body]
pub fn row_statement<'a, 'stmt>(row: &'a SqlRow<'stmt>) -> (s: &'a SqlStatement<'stmt>) {
    row.as_ref()
}

/// Calls `rusqlite::Row::get_ref`, which reads the value of column `index`
/// of the row, or fails for an index out of range; the value is converted to
/// a plain value, a floating point number by the bits of its encoding.
/// Nothing is claimed of the outcome.
#[verifier::external_body]
pub fn row_value(row: &SqlRow<'_>, index: usize) -> (r: Option<ColumnValue>) {
    match row.get_ref(index) {
        Ok(V::Null) => Some(ColumnValue::Null),
        Ok(V::Integer(v)) => Some(ColumnValue::Integer(v)),
        Ok(V::Real(v)) => Some(ColumnValue::Real(v.to_bits())),
        Ok(V::Text(v)) => Some(ColumnValue::Text(v.to_vec())),
        Ok(V::Blob(v)) => Some(ColumnValue::Blob(v.to_vec())),
        Err(_) => None,
    }
}

/// Calls `rusqlite::Statement::clear_bindings`, which sets every parameter
/// to NULL: the statement records no parameter value.
#[verifier::external_body]
pub fn clear_bindings(s: &mut Statement<'_>)
    ensures
        (final(s).bindings() == Map::<i32, Cell>::empty()),
        final(s).current_row() == old(s).current_row(),
        final(s).last_step() == old(s).last_step(),
{
    s.handle.clear_bindings();
}

/// A value handed to SQLite for a parameter.
pub enum Param<'a> {
    /// NULL.
    Null,
    /// An integer.
    Integer(i64),
    /// A text, by its bytes, which are handed over as they are.
    Text(&'a [u8]),
    /// A blob.
    Blob(&'a [u8]),
}

/// The value recorded for a parameter that was handed `p`.
pub open spec fn param_cell(p: Param<'_>) -> Cell {
    match p {
        Param::Null => Cell::Null,
        Param::Integer(v) => Cell::Integer(v),
        Param::Text(t) => Cell::Text(t@),
        Param::Blob(b) => Cell::Blob(b@),
    }
}

/// Calls `rusqlite::Statement::raw_bind_parameter` with the value. On
/// success the statement records the value for the parameter; whether it
/// succeeds is not claimed.
#[verifier::external_body]
pub fn bind_parameter(s: &mut Statement<'_>, index: i32, value: Param<'_>) -> (r: Result<(), Failure>)
    ensures
        final(s).current_row() == old(s).current_row(),
        final(s).last_step() == old(s).last_step(),
        r is Ok ==> final(s).bindings() == old(s).bindings().insert(index, param_cell(value)),
        r is Err ==> after_failed_bind(old(s).bindings(), final(s).bindings(), index),
{
    let value = match value {
        Param::Null => V::Null,
        Param::Integer(v) => V::Integer(v),
        Param::Text(t) => V::Text(t),
        Param::Blob(b) => V::Blob(b),
    };
    match s.handle.raw_bind_parameter(index as usize, rusqlite::types::ToSqlOutput::Borrowed(value)) {
        Ok(()) => Ok(()),
        Err(e) => Err(Failure { code: e.sqlite_extended_error_code(), message: e.to_string() }),
    }
}

/// Calls `rusqlite::Statement::parameter_index`: the one-based index of the
/// named parameter, or `None` when the statement has no parameter of that
/// name. Nothing is claimed of the outcome.
#[verifier::external_body]
pub fn parameter_index(s: &SqlStatement<'_>, name: &str) -> (r: Result<Option<usize>, Failure>) {
    match s.parameter_index(name) {
        Ok(i) => Ok(i),
        Err(e) => Err(Failure { code: e.sqlite_extended_error_code(), message: e.to_string() }),
    }
}

/// Calls `rusqlite::Statement::parameter_name`.
#[verifier::external_body]
pub fn parameter_name<'a>(s: &'a SqlStatement<'_>, index: usize) -> (r: Option<&'a str>) {
    s.parameter_name(index)
}

/// Calls `rusqlite::Statement::column_count`: the number of columns of the
/// result set.
#[verifier::external_body]
pub fn column_count(s: &SqlStatement<'_>) -> (n: usize) {
    s.column_count()
}

} // verus!
