//! Flags used to open a connection and to prepare a statement.

use vstd::prelude::*;

verus! {

/// The database is opened in read-only mode.
pub const SQLITE_OPEN_READONLY: i32 = 1i32;
/// The database is opened for reading and writing.
pub const SQLITE_OPEN_READWRITE: i32 = 2i32;
/// The database is created if it does not exist.
pub const SQLITE_OPEN_CREATE: i32 = 4i32;
/// The filename can be interpreted as a URI.
pub const SQLITE_OPEN_URI: i32 = 64i32;
/// The database is opened as an in-memory database.
pub const SQLITE_OPEN_MEMORY: i32 = 128i32;
/// The "multi-thread" threading mode.
pub const SQLITE_OPEN_NOMUTEX: i32 = 32768i32;
/// The "serialized" threading mode.
pub const SQLITE_OPEN_FULLMUTEX: i32 = 65536i32;
/// Shared cache enabled.
pub const SQLITE_OPEN_SHAREDCACHE: i32 = 131072i32;
/// Shared cache disabled.
pub const SQLITE_OPEN_PRIVATECACHE: i32 = 262144i32;
/// The filename may not contain a symbolic link.
pub const SQLITE_OPEN_NOFOLLOW: i32 = 16777216i32;
/// Extended result codes.
pub const SQLITE_OPEN_EXRESCODE: i32 = 33554432i32;

/// Options that can be used to customize the opening of a SQLite database.
///
/// `new` sets the "serialized" threading mode and extended result codes;
/// `empty` sets nothing. Each builder method adds its flag to the set.
#[derive(Clone, Copy, Debug)]
pub struct OpenOptions {
    raw: i32,
}

/// The flag set with one more flag added.
pub open spec fn with_flag(raw: i32, flag: i32) -> i32 {
    raw | flag
}

impl OpenOptions {
    /// The flags, as handed to SQLite when opening.
    pub closed spec fn flags(&self) -> i32 {
        self.raw
    }

    /// The flags, as handed to SQLite when opening.
    pub fn raw(&self) -> (r: i32)
        ensures
            r == self.flags(),
    {
        self.raw
    }

    /// Create flags for opening a database connection with no options set.
    pub fn empty() -> (o: OpenOptions)
        ensures
            o.flags() == 0,
    {
        OpenOptions { raw: 0 }
    }

    /// Create flags for opening a database connection with default safe
    /// options: the "serialized" threading mode and extended result codes.
    pub fn new() -> (o: OpenOptions)
        ensures
            o.flags() == SQLITE_OPEN_FULLMUTEX | SQLITE_OPEN_EXRESCODE,
    {
        OpenOptions { raw: SQLITE_OPEN_FULLMUTEX | SQLITE_OPEN_EXRESCODE }
    }

    fn add(&mut self, flag: i32)
        ensures
            final(self).flags() == with_flag(old(self).flags(), flag),
    {
        self.raw = self.raw | flag;
    }

    /// The database is opened in read-only mode. If the database does not
    /// already exist, an error is returned.
    pub fn read_only(&mut self) -> (r: &mut Self)
        ensures
            r.flags() == with_flag(old(self).flags(), SQLITE_OPEN_READONLY),
            *final(self) == *final(r),
    {
        self.add(SQLITE_OPEN_READONLY);
        self
    }

    /// The database is opened for reading and writing if possible, or
    /// reading only if the file is write protected by the operating system.
    pub fn read_write(&mut self) -> (r: &mut Self)
        ensures
            r.flags() == with_flag(old(self).flags(), SQLITE_OPEN_READWRITE),
            *final(self) == *final(r),
    {
        self.add(SQLITE_OPEN_READWRITE);
        self
    }

    /// The database is created if it does not already exist. A mode option
    /// such as `read_write` must be set as well, otherwise opening fails.
    pub fn create(&mut self) -> (r: &mut Self)
        ensures
            r.flags() == with_flag(old(self).flags(), SQLITE_OPEN_CREATE),
            *final(self) == *final(r),
    {
        self.add(SQLITE_OPEN_CREATE);
        self
    }

    /// The filename can be interpreted as a URI if this flag is set.
    pub fn uri(&mut self) -> (r: &mut Self)
        ensures
            r.flags() == with_flag(old(self).flags(), SQLITE_OPEN_URI),
            *final(self) == *final(r),
    {
        self.add(SQLITE_OPEN_URI);
        self
    }

    /// The database will be opened as an in-memory database.
    pub fn memory(&mut self) -> (r: &mut Self)
        ensures
            r.flags() == with_flag(old(self).flags(), SQLITE_OPEN_MEMORY),
            *final(self) == *final(r),
    {
        self.add(SQLITE_OPEN_MEMORY);
        self
    }

    /// The new database connection will use the "multi-thread" threading
    /// mode.
    pub fn no_mutex(&mut self) -> (r: &mut Self)
        ensures
            r.flags() == with_flag(old(self).flags(), SQLITE_OPEN_NOMUTEX),
            *final(self) == *final(r),
    {
        self.add(SQLITE_OPEN_NOMUTEX);
        self
    }

    /// The new database connection will use the "serialized" threading
    /// mode.
    pub fn full_mutex(&mut self) -> (r: &mut Self)
        ensures
            r.flags() == with_flag(old(self).flags(), SQLITE_OPEN_FULLMUTEX),
            *final(self) == *final(r),
    {
        self.add(SQLITE_OPEN_FULLMUTEX);
        self
    }

    /// The database is opened with shared cache enabled.
    pub fn shared_cache(&mut self) -> (r: &mut Self)
        ensures
            r.flags() == with_flag(old(self).flags(), SQLITE_OPEN_SHAREDCACHE),
            *final(self) == *final(r),
    {
        self.add(SQLITE_OPEN_SHAREDCACHE);
        self
    }

    /// The database is opened with shared cache disabled.
    pub fn private_cache(&mut self) -> (r: &mut Self)
        ensures
            r.flags() == with_flag(old(self).flags(), SQLITE_OPEN_PRIVATECACHE),
            *final(self) == *final(r),
    {
        self.add(SQLITE_OPEN_PRIVATECACHE);
        self
    }

    /// The database filename is not allowed to contain a symbolic link.
    pub fn no_follow(&mut self) -> (r: &mut Self)
        ensures
            r.flags() == with_flag(old(self).flags(), SQLITE_OPEN_NOFOLLOW),
            *final(self) == *final(r),
    {
        self.add(SQLITE_OPEN_NOFOLLOW);
        self
    }

    /// The database connection comes up in "extended result code mode".
    pub fn extended_result_codes(&mut self) -> (r: &mut Self)
        ensures
            r.flags() == with_flag(old(self).flags(), SQLITE_OPEN_EXRESCODE),
            *final(self) == *final(r),
    {
        self.add(SQLITE_OPEN_EXRESCODE);
        self
    }
}

/// Adding a flag twice is the same as adding it once.
pub proof fn lemma_flag_idempotent(raw: i32, flag: i32)
    ensures
        with_flag(with_flag(raw, flag), flag) == with_flag(raw, flag),
{
    assert((raw | flag) | flag == raw | flag) by (bit_vector);
}

/// The order in which flags are added does not matter.
pub proof fn lemma_flag_commutes(raw: i32, a: i32, b: i32)
    ensures
        with_flag(with_flag(raw, a), b) == with_flag(with_flag(raw, b), a),
{
    assert((raw | a) | b == (raw | b) | a) by (bit_vector);
}

/// Adding a flag keeps every flag that was already set.
pub proof fn lemma_flag_keeps(raw: i32, flag: i32, other: i32)
    ensures
        raw & other == other ==> with_flag(raw, flag) & other == other,
        with_flag(raw, flag) & flag == flag,
{
    assert(raw & other == other ==> (raw | flag) & other == other) by (bit_vector);
    assert((raw | flag) & flag == flag) by (bit_vector);
}

/// Flags used when preparing a statement.
#[derive(Clone, Copy, Debug)]
pub struct Prepare {
    raw: u32,
}

impl Prepare {
    /// The flags, as handed to SQLite when preparing.
    pub closed spec fn flags(&self) -> u32 {
        self.raw
    }

    /// The flags, as handed to SQLite when preparing.
    pub fn raw(&self) -> (r: u32)
        ensures
            r == self.flags(),
    {
        self.raw
    }

    /// No flags: the default behavior when preparing a statement.
    pub fn empty() -> (p: Prepare)
        ensures
            p.flags() == 0,
    {
        Prepare { raw: 0 }
    }

    /// A hint to the query planner that the prepared statement will be
    /// retained for a long time and probably reused many times.
    pub fn persistent() -> (p: Prepare)
        ensures
            p.flags() == 1,
    {
        Prepare { raw: 1 }
    }

    /// A no-op flag, kept for compatibility.
    pub fn normalize() -> (p: Prepare)
        ensures
            p.flags() == 2,
    {
        Prepare { raw: 2 }
    }

    /// The statement may not use any virtual tables.
    pub fn no_vtab() -> (p: Prepare)
        ensures
            p.flags() == 4,
    {
        Prepare { raw: 4 }
    }

    /// Both sets of flags.
    pub fn union(self, other: Prepare) -> (p: Prepare)
        ensures
            p.flags() == self.flags() | other.flags(),
    {
        Prepare { raw: self.raw | other.raw }
    }
}

} // verus!
