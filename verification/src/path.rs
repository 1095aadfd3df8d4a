//! Checks on text handed to SQLite as a C string.

use vstd::prelude::*;
use vstd::string::StringSliceAdditionalSpecFns;

verus! {

/// Whether a byte string holds a NUL byte.
pub open spec fn holds_nul(bytes: Seq<u8>) -> bool {
    exists|i: int| 0 <= i < bytes.len() && bytes[i] == 0u8
}

/// Whether the text holds a NUL byte, which a C string cannot.
pub fn has_nul(s: &str) -> (r: bool)
    ensures
        r == holds_nul(s.spec_bytes()),
{
    let bytes = s.as_bytes();
    let mut i: usize = 0;
    while i < bytes.len()
        invariant
            0 <= i <= bytes@.len(),
            bytes@ == s.spec_bytes(),
            forall|j: int| 0 <= j < i ==> bytes@[j] != 0u8,
        decreases bytes@.len() - i,
    {
        if bytes[i] == 0 {
            return true;
        }
        i = i + 1;
    }
    false
}

} // verus!
