//! Connections to a database.

use vstd::prelude::*;
use vstd::string::StringSliceAdditionalSpecFns;

use crate::code::Code;
use crate::engine;
use crate::batch::{check_single, run_batch, statement_count_message, Batch};
use crate::error::{DatabaseNotFound, Error};
use crate::options::{
    with_flag, OpenOptions, Prepare, SQLITE_OPEN_CREATE, SQLITE_OPEN_EXRESCODE,
    SQLITE_OPEN_FULLMUTEX, SQLITE_OPEN_READWRITE,
};
use crate::path::{has_nul, holds_nul};
use crate::statement::Statement;
use crate::value::Cell;

verus! {

/// The message of the error for a path that cannot be handed to SQLite.
pub open spec fn nul_path_message() -> Seq<char> {
    "path utf-8 contains internal null"@
}

/// The flags with which `Connection::open` and
/// `Connection::open_in_memory` open a database: those of
/// `OpenOptions::new`, with extended result codes, reading and writing, and
/// creating the database when it does not exist.
pub open spec fn default_open_flags() -> i32 {
    with_flag(
        with_flag(
            with_flag(
                with_flag(SQLITE_OPEN_FULLMUTEX, SQLITE_OPEN_EXRESCODE),
                SQLITE_OPEN_EXRESCODE,
            ),
            SQLITE_OPEN_READWRITE,
        ),
        SQLITE_OPEN_CREATE,
    )
}

/// A connection to a database.
///
/// Statements prepared on a connection borrow it, so the connection
/// outlives them.
pub struct Connection {
    pub(crate) db: rusqlite::Connection,
    pub(crate) flags: Ghost<i32>,
    pub(crate) busy: Ghost<BusyMode>,
}

/// How a connection handles a locked database.
pub enum BusyMode {
    /// It fails at once with `BUSY`.
    Off,
    /// It retries for up to this many milliseconds.
    Timeout(u32),
    /// It asks a callback whether to retry.
    Handler,
}

/// The number of changed rows a connection reports, as a `usize`: the count
/// itself, or `usize::MAX` where it does not fit.
pub open spec fn saturated(n: u64) -> usize {
    if n > usize::MAX {
        usize::MAX
    } else {
        n as usize
    }
}

/// A count of changed rows as a `usize`, saturating at `usize::MAX`.
pub fn saturate_count(n: u64) -> (r: usize)
    ensures
        r == saturated(n),
{
    if n > usize::MAX as u64 {
        usize::MAX
    } else {
        n as usize
    }
}

impl OpenOptions {
    /// Open a database at the given path with these options.
    ///
    /// A path holding a NUL byte cannot be handed to SQLite and fails with
    /// `MISUSE`.
    pub fn open(&self, path: &str) -> (r: Result<Connection, Error>)
        ensures
            holds_nul(path.spec_bytes()) ==> (r matches Err(e) && e.code_spec() == Code::MISUSE
                && e.message_spec() == nul_path_message()),
            r matches Ok(c) ==> c.flags_spec() == self.flags() && c.busy_spec() == BusyMode::Off,
    {
        if has_nul(path) {
            return Err(Error::new(Code::MISUSE, "path utf-8 contains internal null"));
        }
        connect(path, self.raw())
    }

    /// Open an in-memory database with these options.
    pub fn open_in_memory(&self) -> (r: Result<Connection, Error>)
        ensures
            r matches Ok(c) ==> c.flags_spec() == self.flags() && c.busy_spec() == BusyMode::Off,
    {
        connect(":memory:", self.raw())
    }
}

/// Open the database at `path` with the flags `flags`. The connection starts
/// with no busy handler, so that a locked database fails at once with `BUSY`
/// until one is set.
fn connect(path: &str, flags: i32) -> (r: Result<Connection, Error>)
    ensures
        r matches Ok(c) ==> c.flags_spec() == flags && c.busy_spec() == BusyMode::Off,
{
    let mut c = match engine::open(path, flags) {
        Ok(c) => c,
        Err(f) => return Err(Error::from_failure(f)),
    };
    match engine::busy_timeout(&mut c, 0) {
        Ok(()) => Ok(c),
        Err(f) => Err(Error::from_failure(f)),
    }
}

impl Connection {
    /// How this connection handles a locked database.
    pub closed spec fn busy_spec(&self) -> BusyMode {
        self.busy@
    }

    /// The flags this connection was opened with, as handed to rusqlite.
    pub closed spec fn flags_spec(&self) -> i32 {
        self.flags@
    }

    /// Open a database at the given path for reading and writing, creating
    /// it when it does not exist.
    ///
    /// A path holding a NUL byte cannot be handed to SQLite and fails with
    /// `MISUSE`.
    pub fn open(path: &str) -> (r: Result<Connection, Error>)
        ensures
            holds_nul(path.spec_bytes()) ==> (r matches Err(e) && e.code_spec() == Code::MISUSE
                && e.message_spec() == nul_path_message()),
            r matches Ok(c) ==> c.flags_spec() == default_open_flags() && c.busy_spec()
                == BusyMode::Off,
    {
        let mut options = OpenOptions::new();
        options.extended_result_codes().read_write().create();
        options.open(path)
    }

    /// Open an in-memory database for reading and writing.
    pub fn open_in_memory() -> (r: Result<Connection, Error>)
        ensures
            r matches Ok(c) ==> c.flags_spec() == default_open_flags() && c.busy_spec()
                == BusyMode::Off,
    {
        let mut options = OpenOptions::new();
        options.extended_result_codes().read_write().create();
        options.open_in_memory()
    }

    /// A batch of the statements in `sql`, to be run with `run_batch` or
    /// checked with `check_single`.
    pub fn batch<'c, 'sql>(&'c self, sql: &'sql str) -> (b: Batch<'c, 'sql>)
        ensures
            b.is_fresh(),
            b.text_len() == sql.spec_bytes().len(),
    {
        engine::batch(self, sql)
    }

    /// Execute a batch of statements, one after the other, each stepped
    /// until it is done; the rows they produce are thrown away. Execution
    /// stops at the first error, which is returned; the statements before it
    /// keep their effects. This is `run_batch` on `self.batch(sql)`, whose
    /// contract states what happened; a text with nothing in it succeeds.
    pub fn execute(&self, sql: &str) -> (r: Result<(), Error>)
        ensures
            sql.spec_bytes().len() == 0 ==> r is Ok,
    {
        let mut batch = self.batch(sql);
        run_batch(&mut batch)
    }

    /// Prepare a single statement.
    pub fn prepare(&self, sql: &str) -> (r: Result<Statement<'_>, Error>)
        ensures
            r matches Ok(s) ==> s.current_row() is None && s.bindings() == Map::<i32, Cell>::empty()
                && s.last_step() is None,
            sql.spec_bytes().len() == 0 ==> (r matches Err(e) && e.code_spec() == Code::ERROR
                && e.message_spec() == statement_count_message()),
    {
        self.prepare_with(sql, Prepare::empty())
    }

    /// Prepare a single statement with the given flags. Text that holds no
    /// statement, or more than one, is an `ERROR`: the text is first checked
    /// with `check_single` on `self.batch(sql)`, whose contract states the
    /// check.
    pub fn prepare_with(&self, sql: &str, flags: Prepare) -> (r: Result<Statement<'_>, Error>)
        ensures
            r matches Ok(s) ==> s.current_row() is None && s.bindings() == Map::<i32, Cell>::empty()
                && s.last_step() is None,
            sql.spec_bytes().len() == 0 ==> (r matches Err(e) && e.code_spec() == Code::ERROR
                && e.message_spec() == statement_count_message()),
    {
        {
            let mut batch = self.batch(sql);
            check_single(&mut batch)?;
        }
        match engine::prepare(&self.db, sql, flags.raw()) {
            Ok(raw) => Ok(Statement::from_handle(raw)),
            Err(f) => Err(Error::from_failure(f)),
        }
    }

    /// The number of rows changed by the most recent INSERT, UPDATE or
    /// DELETE.
    pub fn changes(&self) -> (n: usize) {
        saturate_count(engine::changes(&self.db))
    }

    /// The number of rows changed since the connection was opened.
    pub fn total_changes(&self) -> (n: usize) {
        saturate_count(engine::total_changes(&self.db))
    }

    /// The rowid of the most recent successful INSERT.
    pub fn last_insert_rowid(&self) -> (n: i64) {
        engine::last_insert_rowid(&self.db)
    }

    /// Whether the database of the given name (such as `main`) is read
    /// only, or `DatabaseNotFound` when the connection has no database of
    /// that name.
    pub fn database_read_only(&self, name: &str) -> (r: Result<bool, DatabaseNotFound>) {
        match engine::is_readonly(&self.db, name) {
            Ok(b) => Ok(b),
            Err(_) => Err(DatabaseNotFound),
        }
    }

    /// Set a busy timeout of `ms` milliseconds, which replaces any busy
    /// handler. A timeout of zero or less turns busy handling off.
    pub fn busy_timeout(&mut self, ms: i32) -> (r: Result<(), Error>)
        ensures
            final(self).flags_spec() == old(self).flags_spec(),
            r is Ok && ms <= 0 ==> final(self).busy_spec() == BusyMode::Off,
            r is Ok && ms > 0 ==> final(self).busy_spec() == BusyMode::Timeout(ms as u32),
    {
        let ms: u32 = if ms <= 0 {
            0
        } else {
            ms as u32
        };
        match engine::busy_timeout(self, ms) {
            Ok(()) => Ok(()),
            Err(f) => Err(Error::from_failure(f)),
        }
    }

    /// Set a busy handler: when the database is locked, `callback` is called
    /// with the number of times it was called before for the same lock, and
    /// SQLite tries again while it returns `true`.
    pub fn busy_handler<F: FnMut(usize) -> bool + Send + 'static>(&mut self, callback: F) -> (r:
        Result<(), Error>)
        ensures
            final(self).flags_spec() == old(self).flags_spec(),
            r is Ok ==> final(self).busy_spec() == BusyMode::Handler,
    {
        match engine::busy_handler(self, callback) {
            Ok(()) => Ok(()),
            Err(f) => Err(Error::from_failure(f)),
        }
    }

    /// Remove any busy handler, so that a locked database fails at once with
    /// `BUSY`.
    pub fn clear_busy_handler(&mut self) -> (r: Result<(), Error>)
        ensures
            final(self).flags_spec() == old(self).flags_spec(),
            r is Ok ==> final(self).busy_spec() == BusyMode::Off,
    {
        match engine::clear_busy_handler(self) {
            Ok(()) => Ok(()),
            Err(f) => Err(Error::from_failure(f)),
        }
    }
}

} // verus!
