//! Laws of binding values: what each kind of value hands to SQLite for a
//! parameter.

use vstd::prelude::*;
use vstd::string::StringSliceAdditionalSpecFns;
use vstd::utf8::encode_utf8;

use crate::bind::{BindValue, MAX_ALLOCATION};
use crate::code::Code;
use crate::error::Error;
use crate::fixed::{FixedBlob, FixedText};
use crate::value::{Cell, Null};

verus! {

/// A byte slice binds as a blob of exactly its bytes, unless it is too
/// large to hand over, when it is refused with `ERROR`.
pub proof fn lemma_byte_slice_binds_as_blob(b: &[u8], e: Error)
    ensures
        b@.len() <= MAX_ALLOCATION ==> b.bound_cell() == Some(Cell::Blob(b@)),
        b@.len() > MAX_ALLOCATION ==> b.bound_cell() is None,
        b.refused_with(e) ==> e.code_spec() == Code::ERROR,
{
}

/// A byte vector binds as a blob of exactly its bytes when it can be handed
/// over.
pub proof fn lemma_byte_vec_binds_as_blob(b: Vec<u8>)
    ensures
        b@.len() <= MAX_ALLOCATION ==> b.bound_cell() == Some(Cell::Blob(b@)),
        b@.len() > MAX_ALLOCATION ==> b.bound_cell() is None,
{
}

/// A byte array binds as a blob of exactly its bytes when it can be handed
/// over.
pub proof fn lemma_byte_array_binds_as_blob<const N: usize>(b: [u8; N])
    ensures
        b@.len() <= MAX_ALLOCATION ==> b.bound_cell() == Some(Cell::Blob(b@)),
        b@.len() > MAX_ALLOCATION ==> b.bound_cell() is None,
{
}

/// A fixed-size blob binds as a blob of exactly its bytes when it can be
/// handed over.
pub proof fn lemma_fixed_blob_binds_as_blob<const N: usize>(b: FixedBlob<N>)
    ensures
        b@.len() <= MAX_ALLOCATION ==> b.bound_cell() == Some(Cell::Blob(b@)),
        b@.len() > MAX_ALLOCATION ==> b.bound_cell() is None,
{
}

/// A string slice binds as text of exactly its UTF-8 bytes when it can be
/// handed over.
pub proof fn lemma_str_binds_as_text(s: &str)
    ensures
        s.spec_bytes().len() <= MAX_ALLOCATION ==> s.bound_cell() == Some(Cell::Text(s.spec_bytes())),
        s.spec_bytes().len() > MAX_ALLOCATION ==> s.bound_cell() is None,
{
}

/// A string binds as text of exactly its UTF-8 encoding when it can be
/// handed over.
pub proof fn lemma_string_binds_as_text(s: String)
    ensures
        encode_utf8(s@).len() <= MAX_ALLOCATION ==> s.bound_cell() == Some(Cell::Text(encode_utf8(s@))),
        encode_utf8(s@).len() > MAX_ALLOCATION ==> s.bound_cell() is None,
{
}

/// A fixed-size text binds as text of exactly its bytes when it can be
/// handed over.
pub proof fn lemma_fixed_text_binds_as_text<const N: usize>(t: FixedText<N>)
    ensures
        t@.len() <= MAX_ALLOCATION ==> t.bound_cell() == Some(Cell::Text(t@)),
        t@.len() > MAX_ALLOCATION ==> t.bound_cell() is None,
{
}

/// NULL binds as NULL.
pub proof fn lemma_null_binds_as_null()
    ensures
        Null.bound_cell() == Some(Cell::Null),
{
}

/// `None` binds NULL, and `Some(v)` binds exactly what `v` binds.
pub proof fn lemma_option_binds_inner<T: BindValue>(v: Option<T>, e: Error)
    ensures
        v is None ==> v.bound_cell() == Some(Cell::Null),
        v matches Some(x) ==> v.bound_cell() == x.bound_cell() && (v.refused_with(e) <==> x.refused_with(e)),
{
}

/// A reference or a box binds exactly what the value it points to binds.
pub proof fn lemma_pointers_bind_their_target<T: BindValue>(v: Box<T>, e: Error)
    ensures
        v.bound_cell() == (*v).bound_cell(),
        (&*v).bound_cell() == (*v).bound_cell(),
        v.refused_with(e) <==> (*v).refused_with(e),
{
}

} // verus!
