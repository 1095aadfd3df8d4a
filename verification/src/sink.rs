//! Buffers that the text or blob of a column can be appended to.

use vstd::prelude::*;
use vstd::string::StringSliceAdditionalSpecFns;
use vstd::utf8::{encode_utf8, valid_utf8};

use crate::code::Code;
use crate::error::Error;
use crate::statement::Statement;
use crate::text::str_from_utf8;
use crate::ty::{type_check, type_mismatch_message};
use crate::value::{cell_type, Cell, ColumnValue, ValueType};

verus! {

/// The bytes of a text or blob value; empty for any other value.
pub open spec fn cell_bytes(cell: Cell) -> Seq<u8> {
    match cell {
        Cell::Text(b) => b,
        Cell::Blob(b) => b,
        _ => Seq::empty(),
    }
}

/// Encoding two strings one after the other encodes their concatenation.
proof fn lemma_encode_utf8_concat(a: Seq<char>, b: Seq<char>)
    ensures
        encode_utf8(a + b) == encode_utf8(a) + encode_utf8(b),
    decreases a.len(),
{
    if a.len() == 0 {
        assert(a + b =~= b);
    } else {
        lemma_encode_utf8_concat(a.drop_first(), b);
        assert((a + b).drop_first() =~= a.drop_first() + b);
        assert((a + b)[0] == a[0]);
    }
}

/// A buffer that a column can be appended to, reusing its allocation.
pub trait Sink {
    /// The column type the buffer takes.
    spec fn column_type() -> ValueType;

    /// The bytes held by the buffer.
    spec fn contents(&self) -> Seq<u8>;

    /// Whether bytes of that column type can be appended to the buffer.
    spec fn fits(bytes: Seq<u8>) -> bool;

    /// Append the value of column `index` of the current row. A column of
    /// another type is a `MISMATCH` error and leaves the buffer as it was.
    fn write(&mut self, stmt: &Statement<'_>, index: i32) -> (r: Result<(), Error>)
        ensures
            r is Ok <==> (cell_type(stmt.column_at(index as int)) == Self::column_type()
                && Self::fits(cell_bytes(stmt.column_at(index as int)))),
            r is Ok ==> final(self).contents() == old(self).contents() + cell_bytes(
                stmt.column_at(index as int),
            ),
            r is Err ==> final(self).contents() == old(self).contents(),
            r matches Err(e) ==> e.code_spec() == Code::MISMATCH,
            cell_type(stmt.column_at(index as int)) != Self::column_type() ==> (r matches Err(e)
                && e.message_spec() == type_mismatch_message(
                Self::column_type(),
                cell_type(stmt.column_at(index as int)),
            )),
    ;
}

impl Sink for String {
    open spec fn column_type() -> ValueType {
        ValueType::TEXT
    }

    open spec fn contents(&self) -> Seq<u8> {
        encode_utf8(self@)
    }

    open spec fn fits(bytes: Seq<u8>) -> bool {
        valid_utf8(bytes)
    }

    fn write(&mut self, stmt: &Statement<'_>, index: i32) -> (r: Result<(), Error>) {
        type_check(stmt, index, ValueType::TEXT)?;
        let bytes = match stmt.column_value(index) {
            Some(ColumnValue::Text(bytes)) => bytes.as_slice(),
            _ => {
                assert(false);
                return Ok(());
            },
        };
        match str_from_utf8(bytes) {
            Some(s) => {
                let ghost before = self@;
                self.append(s);
                proof {
                    lemma_encode_utf8_concat(before, s@);
                }
                Ok(())
            },
            None => Err(Error::new(Code::MISMATCH, "column is not valid UTF-8")),
        }
    }
}

impl Sink for Vec<u8> {
    open spec fn column_type() -> ValueType {
        ValueType::BLOB
    }

    open spec fn contents(&self) -> Seq<u8> {
        self@
    }

    open spec fn fits(bytes: Seq<u8>) -> bool {
        true
    }

    fn write(&mut self, stmt: &Statement<'_>, index: i32) -> (r: Result<(), Error>) {
        type_check(stmt, index, ValueType::BLOB)?;
        let bytes = match stmt.column_value(index) {
            Some(ColumnValue::Blob(bytes)) => bytes.as_slice(),
            _ => {
                assert(false);
                return Ok(());
            },
        };
        let mut i: usize = 0;
        let ghost before = self@;
        while i < bytes.len()
            invariant
                i <= bytes@.len(),
                self@ == before + bytes@.take(i as int),
            decreases bytes@.len() - i,
        {
            self.push(bytes[i]);
            i = i + 1;
            assert(self@ =~= before + bytes@.take(i as int));
        }
        assert(bytes@.take(bytes@.len() as int) =~= bytes@);
        Ok(())
    }
}

/// Appending a column to a string takes exactly the text columns that are
/// valid UTF-8, and the string then ends with the column's text.
pub proof fn lemma_string_sink_takes_text(before: String, after: String, cell: Cell, ok: bool)
    requires
        ok <==> (cell_type(cell) == <String as Sink>::column_type() && <String as Sink>::fits(
            cell_bytes(cell),
        )),
        ok ==> after.contents() == before.contents() + cell_bytes(cell),
    ensures
        ok <==> (cell matches Cell::Text(b) && valid_utf8(b)),
        ok ==> encode_utf8(after@) == encode_utf8(before@) + cell->Text_0,
{
}

/// Appending a column to a byte vector takes exactly the blob columns, and
/// the vector then ends with the column's bytes.
pub proof fn lemma_bytes_sink_takes_blobs(before: Vec<u8>, after: Vec<u8>, cell: Cell, ok: bool)
    requires
        ok <==> (cell_type(cell) == <Vec<u8> as Sink>::column_type() && <Vec<u8> as Sink>::fits(
            cell_bytes(cell),
        )),
        ok ==> after.contents() == before.contents() + cell_bytes(cell),
    ensures
        ok <==> cell is Blob,
        ok ==> after@ == before@ + cell->Blob_0,
{
}

} // verus!
