//! Laws of reading text, blob, floating point and NULL columns: each type
//! reads only its own kind of column, and reads it as exactly what the
//! column holds.

use vstd::prelude::*;
use vstd::string::StringSliceAdditionalSpecFns;
use vstd::utf8::{encode_utf8, valid_utf8};

use crate::code::Code;
use crate::error::{capacity_message, Error};
use crate::fixed::{FixedBlob, FixedText};
use crate::from_column::read_as;
use crate::value::{Cell, Kind, Null, Real, Value};

verus! {

/// A column reads as a `String` exactly when it is text that is valid
/// UTF-8, and then as the string whose UTF-8 encoding is that text; text
/// that is not valid UTF-8, and any other column, is a `MISMATCH`.
pub proof fn lemma_string_reads_text(cell: Cell, r: Result<String, Error>)
    requires
        read_as::<String>(cell, r),
    ensures
        r is Ok <==> (cell matches Cell::Text(b) && valid_utf8(b)),
        r matches Ok(s) ==> cell == Cell::Text(encode_utf8(s@)),
        r matches Err(e) ==> e.code_spec() == Code::MISMATCH,
        cell is Text && r is Err ==> r->Err_0.message_spec() == "column is not valid UTF-8"@,
{
}

/// A column reads as a `&str` exactly when it is text that is valid UTF-8,
/// and then as a string with exactly those bytes; anything else is a
/// `MISMATCH`.
pub proof fn lemma_str_reads_text<'stmt>(cell: Cell, r: Result<&'stmt str, Error>)
    requires
        read_as::<'stmt, &'stmt str>(cell, r),
    ensures
        r is Ok <==> (cell matches Cell::Text(b) && valid_utf8(b)),
        r matches Ok(s) ==> cell == Cell::Text(s.spec_bytes()),
        r matches Err(e) ==> e.code_spec() == Code::MISMATCH,
        cell is Text && r is Err ==> r->Err_0.message_spec() == "column is not valid UTF-8"@,
{
}

/// A column reads as a `Vec<u8>` exactly when it is a blob, and then as its
/// bytes; any other column is a `MISMATCH`.
pub proof fn lemma_bytes_read_blobs(cell: Cell, r: Result<Vec<u8>, Error>)
    requires
        read_as::<Vec<u8>>(cell, r),
    ensures
        r is Ok <==> cell is Blob,
        r matches Ok(v) ==> cell == Cell::Blob(v@),
        r matches Err(e) ==> e.code_spec() == Code::MISMATCH,
{
}

/// A column reads as a `&[u8]` exactly when it is a blob, and then as its
/// bytes; any other column is a `MISMATCH`.
pub proof fn lemma_byte_slice_reads_blobs<'stmt>(cell: Cell, r: Result<&'stmt [u8], Error>)
    requires
        read_as::<'stmt, &'stmt [u8]>(cell, r),
    ensures
        r is Ok <==> cell is Blob,
        r matches Ok(v) ==> cell == Cell::Blob(v@),
        r matches Err(e) ==> e.code_spec() == Code::MISMATCH,
{
}

/// A column reads as a `FixedBlob<N>` exactly when it is a blob of at most
/// `N` bytes, and then as those bytes; a longer blob fails with the
/// capacity error that names its length, and any other column is a
/// `MISMATCH`.
pub proof fn lemma_fixed_blob_reads_short_blobs<const N: usize>(cell: Cell, r: Result<FixedBlob<N>, Error>)
    requires
        read_as::<FixedBlob<N>>(cell, r),
    ensures
        r is Ok <==> (cell matches Cell::Blob(b) && b.len() <= N),
        r matches Ok(v) ==> cell == Cell::Blob(v@),
        r matches Err(e) ==> e.code_spec() == Code::MISMATCH,
        match cell {
            Cell::Blob(b) => b.len() > N ==> r->Err_0.message_spec() == capacity_message(b.len(), N as nat),
            _ => true,
        },
{
}

/// A column reads as a `FixedText<N>` exactly when it is valid UTF-8 text
/// of at most `N` bytes, and then as those bytes; any other column is a
/// `MISMATCH`.
pub proof fn lemma_fixed_text_reads_short_texts<const N: usize>(cell: Cell, r: Result<FixedText<N>, Error>)
    requires
        read_as::<FixedText<N>>(cell, r),
    ensures
        r is Ok <==> (cell matches Cell::Text(b) && valid_utf8(b) && b.len() <= N),
        r matches Ok(v) ==> cell == Cell::Text(v@),
        r matches Err(e) ==> e.code_spec() == Code::MISMATCH,
{
}

/// A column reads as a `Real` exactly when it is a floating point number,
/// and then as the number with exactly those bits; any other column is a
/// `MISMATCH`.
pub proof fn lemma_real_reads_floats(cell: Cell, r: Result<Real, Error>)
    requires
        read_as::<Real>(cell, r),
    ensures
        r is Ok <==> cell is Real,
        r matches Ok(v) ==> cell == Cell::Real(v.bits_spec()),
        r matches Err(e) ==> e.code_spec() == Code::MISMATCH,
{
}

/// A column reads as `Null` exactly when it is NULL.
pub proof fn lemma_null_reads_null(cell: Cell, r: Result<Null, Error>)
    requires
        read_as::<Null>(cell, r),
    ensures
        r is Ok <==> cell is Null,
        r matches Err(e) ==> e.code_spec() == Code::MISMATCH,
{
}

/// A dynamic value reads every column but NULL and text that is not valid
/// UTF-8, and holds exactly what the column holds, of the column's kind.
pub proof fn lemma_value_holds_the_column<'stmt>(cell: Cell, r: Result<Value<'stmt>, Error>)
    requires
        read_as::<'stmt, Value<'stmt>>(cell, r),
    ensures
        r is Ok <==> (!(cell is Null) && (cell matches Cell::Text(b) ==> valid_utf8(b))),
        r matches Err(e) ==> e.code_spec() == Code::MISMATCH,
        r matches Ok(v) ==> match cell {
            Cell::Integer(i) => v.kind_spec() == Kind::<'stmt>::Integer(i),
            Cell::Real(bits) => v.kind_spec() == Kind::<'stmt>::Float(bits),
            Cell::Text(b) => v.kind_spec() matches Kind::Text(t) && t.spec_bytes() == b,
            Cell::Blob(b) => v.kind_spec() matches Kind::Blob(x) && x@ == b,
            Cell::Null => false,
        },
{
}

} // verus!
