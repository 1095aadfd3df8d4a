//! The version of the SQLite library in use.

use vstd::prelude::*;

verus! {

/// Return the version string of the SQLite library in use, such as
/// `"3.51.1"`. Calls `rusqlite::version`; nothing is claimed of the string,
/// which depends on the library linked in.
#[verifier::external_body]
pub fn lib_version() -> &'static str {
    rusqlite::version()
}

/// Return the version number of the SQLite library in use: version `3.51.1`
/// is `3051001`. Calls `rusqlite::version_number`; nothing is claimed of the
/// number, which depends on the library linked in.
#[verifier::external_body]
pub fn lib_version_number() -> i32 {
    rusqlite::version_number()
}

} // verus!
