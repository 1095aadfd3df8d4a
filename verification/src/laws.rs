//! Properties that relate several parts of the library.

use vstd::prelude::*;
use vstd::string::StringSliceAdditionalSpecFns;
use vstd::utf8::encode_utf8;

use crate::bind::{Bind, BindValue, MAX_ALLOCATION};
use crate::code::Code;
use crate::error::Error;
use crate::fixed::FixedBlob;
use crate::from_column::{read_as, FromColumn};
use crate::row::Row;
use crate::state::State;
use crate::statement::{cell_at, Statement};
use crate::ty::{NotNull, Type};
use crate::value::{Cell, Kind, Null, Value};

verus! {

/// Reads are strict: a NULL column read as a type that does not admit NULL
/// fails with `MISMATCH`, whatever the type.
pub proof fn lemma_null_read_as_not_null_fails<'stmt, T: FromColumn<'stmt>>(r: Result<T, Error>) where T::Type: NotNull
    requires
        read_as::<'stmt, T>(Cell::Null, r),
    ensures
        r matches Err(e) && e.code_spec() == Code::MISMATCH,
{
    <T::Type as NotNull>::lemma_rejects_null();
}

/// A NULL column read as an `Option` gives `None`.
pub proof fn lemma_null_read_as_option<'stmt, T: FromColumn<'stmt>>(r: Result<Option<T>, Error>) where T::Type: NotNull
    requires
        read_as::<'stmt, Option<T>>(Cell::Null, r),
    ensures
        r == Ok::<Option<T>, Error>(None),
{
}

/// A column that is not NULL reads as an `Option` exactly as it reads as the
/// inner type, wrapped in `Some`.
pub proof fn lemma_option_read_wraps<'stmt, T: FromColumn<'stmt>>(cell: Cell, v: T) where T::Type: NotNull
    requires
        !(cell is Null),
    ensures
        read_as::<'stmt, Option<T>>(cell, Ok(Some(v))) <==> read_as::<'stmt, T>(cell, Ok(v)),
{
}

/// An integer bound to a parameter reads back, from a column holding what
/// was bound, as the same integer.
pub proof fn lemma_integer_round_trip(v: i64)
    ensures
        v.bound_cell() matches Some(c) && read_as::<'static, i64>(c, Ok(v)),
{
}

/// A narrower integer bound to a parameter reads back as the same integer.
pub proof fn lemma_narrow_integer_round_trip(v: i32)
    ensures
        v.bound_cell() matches Some(c) && read_as::<'static, i32>(c, Ok(v)),
{
}

/// An unsigned integer that fits in 64 signed bits binds and reads back as
/// the same integer; a larger one is refused when bound.
pub proof fn lemma_unsigned_round_trip(v: u64)
    ensures
        v <= i64::MAX ==> (v.bound_cell() matches Some(c) && read_as::<'static, u64>(c, Ok(v))),
        v > i64::MAX ==> v.bound_cell() is None,
{
}

/// A string bound to a parameter reads back as the same string.
pub proof fn lemma_string_round_trip(s: String)
    requires
        encode_utf8(s@).len() <= MAX_ALLOCATION,
    ensures
        s.bound_cell() matches Some(c) && read_as::<'static, String>(c, Ok(s)),
{
    vstd::utf8::encode_utf8_valid_utf8(s@);
}

/// A string slice bound to a parameter reads back as the same text.
pub proof fn lemma_str_round_trip<'a>(s: &'a str)
    requires
        s.spec_bytes().len() <= MAX_ALLOCATION,
    ensures
        s.bound_cell() matches Some(c) && read_as::<'a, &'a str>(c, Ok(s)),
{
    vstd::utf8::encode_utf8_valid_utf8(s@);
}

/// A blob bound to a parameter reads back as the same bytes.
pub proof fn lemma_blob_round_trip(b: Vec<u8>)
    requires
        b@.len() <= MAX_ALLOCATION,
    ensures
        b.bound_cell() matches Some(c) && read_as::<'static, Vec<u8>>(c, Ok(b)),
{
}

/// A fixed-size blob bound to a parameter reads back, into a blob of the same
/// capacity, as the same bytes.
pub proof fn lemma_fixed_blob_round_trip<const N: usize>(b: FixedBlob<N>)
    requires
        b@.len() <= N,
        b@.len() <= MAX_ALLOCATION,
    ensures
        b.bound_cell() matches Some(c) && read_as::<'static, FixedBlob<N>>(c, Ok(b)),
{
}

/// NULL bound to a parameter reads back as NULL, and as `None`.
pub proof fn lemma_null_round_trip()
    ensures
        Null.bound_cell() matches Some(c) && read_as::<'static, Null>(c, Ok(Null)),
        None::<i64>.bound_cell() matches Some(c) && read_as::<'static, Option<i64>>(
            c,
            Ok(None::<i64>),
        ),
{
}

/// An optional integer bound to a parameter reads back as the same optional
/// integer.
pub proof fn lemma_option_round_trip(v: Option<i64>)
    ensures
        v.bound_cell() matches Some(c) && read_as::<'static, Option<i64>>(c, Ok(v)),
{
}

/// A dynamic value reads every column that is not NULL: it fails only on
/// NULL and on text that is not valid UTF-8, and then with `MISMATCH`.
pub proof fn lemma_value_reads_non_null<'stmt>(cell: Cell, r: Result<Value<'stmt>, Error>)
    requires
        read_as::<'stmt, Value<'stmt>>(cell, r),
    ensures
        r is Err ==> (cell is Text || cell is Null),
        r matches Err(e) ==> e.code_spec() == Code::MISMATCH,
        cell is Null ==> r is Err,
        cell matches Cell::Integer(v) ==> (r matches Ok(val) && val.kind_spec() == Kind::<'stmt>::Integer(v)),
{
}

/// Reading a row as a single value reads its first column.
pub proof fn lemma_single_row_is_first_column<'stmt, T: FromColumn<'stmt>>(
    row: Option<Seq<Cell>>,
    r: Result<T, Error>,
)
    ensures
        <T as Row<'stmt>>::row_result(row, r) <==> read_as::<'stmt, T>(cell_at(row, 0), r),
{
}

/// Reading a row as a pair succeeds with exactly the values that reading its
/// first two columns one by one gives.
pub proof fn lemma_pair_row_is_columns<'stmt, A: FromColumn<'stmt>, B: FromColumn<'stmt>>(
    row: Option<Seq<Cell>>,
    a: A,
    b: B,
)
    ensures
        <(A, B) as Row<'stmt>>::row_result(row, Ok((a, b))) <==> (read_as::<'stmt, A>(
            cell_at(row, 0),
            Ok(a),
        ) && read_as::<'stmt, B>(cell_at(row, 1), Ok(b))),
{
}

/// Binding a single value sets parameter 1 to it and keeps every other
/// parameter; a value that is refused binds nothing.
pub proof fn lemma_single_value_binds_first<T: BindValue>(v: T, before: Map<i32, Cell>)
    ensures
        match v.bound_cell() {
            Some(c) => <T as Bind>::bind_spec(&v, before) == Some(before.insert(1, c)),
            None => <T as Bind>::bind_spec(&v, before) is None,
        },
{
}

/// Binding a pair sets parameter 1 to its first element and parameter 2 to
/// its second, and keeps every other parameter; when either element is
/// refused, the pair binds nothing.
pub proof fn lemma_pair_binds_in_order<A: BindValue, B: BindValue>(v: (A, B), before: Map<i32, Cell>)
    ensures
        match (v.0.bound_cell(), v.1.bound_cell()) {
            (Some(a), Some(b)) => v.bind_spec(before) matches Some(after) && after.contains_key(1)
                && after[1] == a && after.contains_key(2) && after[2] == b && forall|k: i32|
                k != 1 && k != 2 ==> (after.contains_key(k) == before.contains_key(k) && (
                before.contains_key(k) ==> #[trigger] after[k] == before[k])),
            _ => v.bind_spec(before) is None,
        },
{
}

/// After a step comes to a row, every column of the result set reads from
/// the row the step stored, so that a column before the end of the result
/// set is never NULL for want of a value, whatever the columns before it
/// hold.
pub proof fn lemma_row_holds_every_column(s: Statement<'_>, i: int)
    requires
        s.last_step() == Some(Ok::<State, Error>(State::Row)),
        s.current_row() is Some,
        s.current_row()->Some_0.len() == s.row_width(),
        0 <= i < s.row_width(),
    ensures
        s.column_at(i) == s.current_row()->Some_0[i],
{
}

} // verus!
