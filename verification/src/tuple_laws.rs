//! Laws of reading rows into tuples and of binding tuples to parameters,
//! for every tuple size: element `k` of a tuple is read from column `k` and
//! bound to parameter `k + 1`, exactly as that column or value alone.

use vstd::prelude::*;

use crate::bind::{Bind, BindValue};
use crate::code::Code;
use crate::error::Error;
use crate::from_column::{read_as, FromColumn};
use crate::row::Row;
use crate::statement::cell_at;
use crate::ty::Type;
use crate::value::Cell;

verus! {

/// Whether a column holding `cell` reads successfully as a `T`.
pub open spec fn readable<'stmt, T: FromColumn<'stmt>>(cell: Cell) -> bool {
    <T::Type as Type>::admits(cell) && T::accepts(cell)
}

/// A column read alone succeeds with `v` only when it is readable.
pub proof fn lemma_read_ok_is_readable<'stmt, T: FromColumn<'stmt>>(cell: Cell, v: T)
    ensures
        read_as::<'stmt, T>(cell, Ok(v)) ==> readable::<'stmt, T>(cell),
{
}

/// Reading a row as a tuple of 1 succeeds with exactly the values that
/// reading each column alone gives, element `k` from column `k`.
pub proof fn lemma_tuple1_row_is_columns<'stmt, A: FromColumn<'stmt>>(row: Option<Seq<Cell>>, a: A)
    ensures
        <(A,) as Row<'stmt>>::row_result(row, Ok((a,))) <==> (read_as::<'stmt, A>(cell_at(row, 0), Ok(a))),
{
}

/// Reading a row as a tuple of 1 succeeds exactly when every column reads
/// alone; otherwise it fails with `MISMATCH` when some column has a type the
/// element does not take, and else with the error of the first column that
/// does not read.
pub proof fn lemma_tuple1_row_fails_at_first<'stmt, A: FromColumn<'stmt>>(row: Option<Seq<Cell>>, r: Result<(A,), Error>)
    requires
        <(A,) as Row<'stmt>>::row_result(row, r),
    ensures
        r is Ok <==> (readable::<'stmt, A>(cell_at(row, 0))),
        r matches Err(e) ==> if <A::Type as Type>::admits(cell_at(row, 0)) {
            (read_as::<'stmt, A>(cell_at(row, 0), Err(e)))
        } else {
            e.code_spec() == Code::MISMATCH
        },
{
}

/// Reading a row as a tuple of 2 succeeds with exactly the values that
/// reading each column alone gives, element `k` from column `k`.
pub proof fn lemma_tuple2_row_is_columns<'stmt, A: FromColumn<'stmt>, B: FromColumn<'stmt>>(row: Option<Seq<Cell>>, a: A, b: B)
    ensures
        <(A, B) as Row<'stmt>>::row_result(row, Ok((a, b))) <==> (read_as::<'stmt, A>(cell_at(row, 0), Ok(a)) && read_as::<'stmt, B>(cell_at(row, 1), Ok(b))),
{
}

/// Reading a row as a tuple of 2 succeeds exactly when every column reads
/// alone; otherwise it fails with `MISMATCH` when some column has a type the
/// element does not take, and else with the error of the first column that
/// does not read.
pub proof fn lemma_tuple2_row_fails_at_first<'stmt, A: FromColumn<'stmt>, B: FromColumn<'stmt>>(row: Option<Seq<Cell>>, r: Result<(A, B), Error>)
    requires
        <(A, B) as Row<'stmt>>::row_result(row, r),
    ensures
        r is Ok <==> (readable::<'stmt, A>(cell_at(row, 0)) && readable::<'stmt, B>(cell_at(row, 1))),
        r matches Err(e) ==> if <A::Type as Type>::admits(cell_at(row, 0)) && <B::Type as Type>::admits(cell_at(row, 1)) {
            (read_as::<'stmt, A>(cell_at(row, 0), Err(e)))
                || (readable::<'stmt, A>(cell_at(row, 0)) && read_as::<'stmt, B>(cell_at(row, 1), Err(e)))
        } else {
            e.code_spec() == Code::MISMATCH
        },
{
}

/// Reading a row as a tuple of 3 succeeds with exactly the values that
/// reading each column alone gives, element `k` from column `k`.
pub proof fn lemma_tuple3_row_is_columns<'stmt, A: FromColumn<'stmt>, B: FromColumn<'stmt>, C: FromColumn<'stmt>>(row: Option<Seq<Cell>>, a: A, b: B, c: C)
    ensures
        <(A, B, C) as Row<'stmt>>::row_result(row, Ok((a, b, c))) <==> (read_as::<'stmt, A>(cell_at(row, 0), Ok(a)) && read_as::<'stmt, B>(cell_at(row, 1), Ok(b)) && read_as::<'stmt, C>(cell_at(row, 2), Ok(c))),
{
}

/// Reading a row as a tuple of 3 succeeds exactly when every column reads
/// alone; otherwise it fails with `MISMATCH` when some column has a type the
/// element does not take, and else with the error of the first column that
/// does not read.
pub proof fn lemma_tuple3_row_fails_at_first<'stmt, A: FromColumn<'stmt>, B: FromColumn<'stmt>, C: FromColumn<'stmt>>(row: Option<Seq<Cell>>, r: Result<(A, B, C), Error>)
    requires
        <(A, B, C) as Row<'stmt>>::row_result(row, r),
    ensures
        r is Ok <==> (readable::<'stmt, A>(cell_at(row, 0)) && readable::<'stmt, B>(cell_at(row, 1)) && readable::<'stmt, C>(cell_at(row, 2))),
        r matches Err(e) ==> if <A::Type as Type>::admits(cell_at(row, 0)) && <B::Type as Type>::admits(cell_at(row, 1)) && <C::Type as Type>::admits(cell_at(row, 2)) {
            (read_as::<'stmt, A>(cell_at(row, 0), Err(e)))
                || (readable::<'stmt, A>(cell_at(row, 0)) && read_as::<'stmt, B>(cell_at(row, 1), Err(e)))
                || (readable::<'stmt, A>(cell_at(row, 0)) && readable::<'stmt, B>(cell_at(row, 1)) && read_as::<'stmt, C>(cell_at(row, 2), Err(e)))
        } else {
            e.code_spec() == Code::MISMATCH
        },
{
}

/// Reading a row as a tuple of 4 succeeds with exactly the values that
/// reading each column alone gives, element `k` from column `k`.
pub proof fn lemma_tuple4_row_is_columns<'stmt, A: FromColumn<'stmt>, B: FromColumn<'stmt>, C: FromColumn<'stmt>, D: FromColumn<'stmt>>(row: Option<Seq<Cell>>, a: A, b: B, c: C, d: D)
    ensures
        <(A, B, C, D) as Row<'stmt>>::row_result(row, Ok((a, b, c, d))) <==> (read_as::<'stmt, A>(cell_at(row, 0), Ok(a)) && read_as::<'stmt, B>(cell_at(row, 1), Ok(b)) && read_as::<'stmt, C>(cell_at(row, 2), Ok(c)) && read_as::<'stmt, D>(cell_at(row, 3), Ok(d))),
{
}

/// Reading a row as a tuple of 4 succeeds exactly when every column reads
/// alone; otherwise it fails with `MISMATCH` when some column has a type the
/// element does not take, and else with the error of the first column that
/// does not read.
pub proof fn lemma_tuple4_row_fails_at_first<'stmt, A: FromColumn<'stmt>, B: FromColumn<'stmt>, C: FromColumn<'stmt>, D: FromColumn<'stmt>>(row: Option<Seq<Cell>>, r: Result<(A, B, C, D), Error>)
    requires
        <(A, B, C, D) as Row<'stmt>>::row_result(row, r),
    ensures
        r is Ok <==> (readable::<'stmt, A>(cell_at(row, 0)) && readable::<'stmt, B>(cell_at(row, 1)) && readable::<'stmt, C>(cell_at(row, 2)) && readable::<'stmt, D>(cell_at(row, 3))),
        r matches Err(e) ==> if <A::Type as Type>::admits(cell_at(row, 0)) && <B::Type as Type>::admits(cell_at(row, 1)) && <C::Type as Type>::admits(cell_at(row, 2)) && <D::Type as Type>::admits(cell_at(row, 3)) {
            (read_as::<'stmt, A>(cell_at(row, 0), Err(e)))
                || (readable::<'stmt, A>(cell_at(row, 0)) && read_as::<'stmt, B>(cell_at(row, 1), Err(e)))
                || (readable::<'stmt, A>(cell_at(row, 0)) && readable::<'stmt, B>(cell_at(row, 1)) && read_as::<'stmt, C>(cell_at(row, 2), Err(e)))
                || (readable::<'stmt, A>(cell_at(row, 0)) && readable::<'stmt, B>(cell_at(row, 1)) && readable::<'stmt, C>(cell_at(row, 2)) && read_as::<'stmt, D>(cell_at(row, 3), Err(e)))
        } else {
            e.code_spec() == Code::MISMATCH
        },
{
}

/// Reading a row as a tuple of 5 succeeds with exactly the values that
/// reading each column alone gives, element `k` from column `k`.
pub proof fn lemma_tuple5_row_is_columns<'stmt, A: FromColumn<'stmt>, B: FromColumn<'stmt>, C: FromColumn<'stmt>, D: FromColumn<'stmt>, E: FromColumn<'stmt>>(row: Option<Seq<Cell>>, a: A, b: B, c: C, d: D, e: E)
    ensures
        <(A, B, C, D, E) as Row<'stmt>>::row_result(row, Ok((a, b, c, d, e))) <==> (read_as::<'stmt, A>(cell_at(row, 0), Ok(a)) && read_as::<'stmt, B>(cell_at(row, 1), Ok(b)) && read_as::<'stmt, C>(cell_at(row, 2), Ok(c)) && read_as::<'stmt, D>(cell_at(row, 3), Ok(d)) && read_as::<'stmt, E>(cell_at(row, 4), Ok(e))),
{
}

/// Reading a row as a tuple of 5 succeeds exactly when every column reads
/// alone; otherwise it fails with `MISMATCH` when some column has a type the
/// element does not take, and else with the error of the first column that
/// does not read.
pub proof fn lemma_tuple5_row_fails_at_first<'stmt, A: FromColumn<'stmt>, B: FromColumn<'stmt>, C: FromColumn<'stmt>, D: FromColumn<'stmt>, E: FromColumn<'stmt>>(row: Option<Seq<Cell>>, r: Result<(A, B, C, D, E), Error>)
    requires
        <(A, B, C, D, E) as Row<'stmt>>::row_result(row, r),
    ensures
        r is Ok <==> (readable::<'stmt, A>(cell_at(row, 0)) && readable::<'stmt, B>(cell_at(row, 1)) && readable::<'stmt, C>(cell_at(row, 2)) && readable::<'stmt, D>(cell_at(row, 3)) && readable::<'stmt, E>(cell_at(row, 4))),
        r matches Err(e) ==> if <A::Type as Type>::admits(cell_at(row, 0)) && <B::Type as Type>::admits(cell_at(row, 1)) && <C::Type as Type>::admits(cell_at(row, 2)) && <D::Type as Type>::admits(cell_at(row, 3)) && <E::Type as Type>::admits(cell_at(row, 4)) {
            (read_as::<'stmt, A>(cell_at(row, 0), Err(e)))
                || (readable::<'stmt, A>(cell_at(row, 0)) && read_as::<'stmt, B>(cell_at(row, 1), Err(e)))
                || (readable::<'stmt, A>(cell_at(row, 0)) && readable::<'stmt, B>(cell_at(row, 1)) && read_as::<'stmt, C>(cell_at(row, 2), Err(e)))
                || (readable::<'stmt, A>(cell_at(row, 0)) && readable::<'stmt, B>(cell_at(row, 1)) && readable::<'stmt, C>(cell_at(row, 2)) && read_as::<'stmt, D>(cell_at(row, 3), Err(e)))
                || (readable::<'stmt, A>(cell_at(row, 0)) && readable::<'stmt, B>(cell_at(row, 1)) && readable::<'stmt, C>(cell_at(row, 2)) && readable::<'stmt, D>(cell_at(row, 3)) && read_as::<'stmt, E>(cell_at(row, 4), Err(e)))
        } else {
            e.code_spec() == Code::MISMATCH
        },
{
}

/// Reading a row as a tuple of 6 succeeds with exactly the values that
/// reading each column alone gives, element `k` from column `k`.
pub proof fn lemma_tuple6_row_is_columns<'stmt, A: FromColumn<'stmt>, B: FromColumn<'stmt>, C: FromColumn<'stmt>, D: FromColumn<'stmt>, E: FromColumn<'stmt>, F: FromColumn<'stmt>>(row: Option<Seq<Cell>>, a: A, b: B, c: C, d: D, e: E, f: F)
    ensures
        <(A, B, C, D, E, F) as Row<'stmt>>::row_result(row, Ok((a, b, c, d, e, f))) <==> (read_as::<'stmt, A>(cell_at(row, 0), Ok(a)) && read_as::<'stmt, B>(cell_at(row, 1), Ok(b)) && read_as::<'stmt, C>(cell_at(row, 2), Ok(c)) && read_as::<'stmt, D>(cell_at(row, 3), Ok(d)) && read_as::<'stmt, E>(cell_at(row, 4), Ok(e)) && read_as::<'stmt, F>(cell_at(row, 5), Ok(f))),
{
}

/// Reading a row as a tuple of 6 succeeds exactly when every column reads
/// alone; otherwise it fails with `MISMATCH` when some column has a type the
/// element does not take, and else with the error of the first column that
/// does not read.
pub proof fn lemma_tuple6_row_fails_at_first<'stmt, A: FromColumn<'stmt>, B: FromColumn<'stmt>, C: FromColumn<'stmt>, D: FromColumn<'stmt>, E: FromColumn<'stmt>, F: FromColumn<'stmt>>(row: Option<Seq<Cell>>, r: Result<(A, B, C, D, E, F), Error>)
    requires
        <(A, B, C, D, E, F) as Row<'stmt>>::row_result(row, r),
    ensures
        r is Ok <==> (readable::<'stmt, A>(cell_at(row, 0)) && readable::<'stmt, B>(cell_at(row, 1)) && readable::<'stmt, C>(cell_at(row, 2)) && readable::<'stmt, D>(cell_at(row, 3)) && readable::<'stmt, E>(cell_at(row, 4)) && readable::<'stmt, F>(cell_at(row, 5))),
        r matches Err(e) ==> if <A::Type as Type>::admits(cell_at(row, 0)) && <B::Type as Type>::admits(cell_at(row, 1)) && <C::Type as Type>::admits(cell_at(row, 2)) && <D::Type as Type>::admits(cell_at(row, 3)) && <E::Type as Type>::admits(cell_at(row, 4)) && <F::Type as Type>::admits(cell_at(row, 5)) {
            (read_as::<'stmt, A>(cell_at(row, 0), Err(e)))
                || (readable::<'stmt, A>(cell_at(row, 0)) && read_as::<'stmt, B>(cell_at(row, 1), Err(e)))
                || (readable::<'stmt, A>(cell_at(row, 0)) && readable::<'stmt, B>(cell_at(row, 1)) && read_as::<'stmt, C>(cell_at(row, 2), Err(e)))
                || (readable::<'stmt, A>(cell_at(row, 0)) && readable::<'stmt, B>(cell_at(row, 1)) && readable::<'stmt, C>(cell_at(row, 2)) && read_as::<'stmt, D>(cell_at(row, 3), Err(e)))
                || (readable::<'stmt, A>(cell_at(row, 0)) && readable::<'stmt, B>(cell_at(row, 1)) && readable::<'stmt, C>(cell_at(row, 2)) && readable::<'stmt, D>(cell_at(row, 3)) && read_as::<'stmt, E>(cell_at(row, 4), Err(e)))
                || (readable::<'stmt, A>(cell_at(row, 0)) && readable::<'stmt, B>(cell_at(row, 1)) && readable::<'stmt, C>(cell_at(row, 2)) && readable::<'stmt, D>(cell_at(row, 3)) && readable::<'stmt, E>(cell_at(row, 4)) && read_as::<'stmt, F>(cell_at(row, 5), Err(e)))
        } else {
            e.code_spec() == Code::MISMATCH
        },
{
}

/// Reading a row as a tuple of 7 succeeds with exactly the values that
/// reading each column alone gives, element `k` from column `k`.
pub proof fn lemma_tuple7_row_is_columns<'stmt, A: FromColumn<'stmt>, B: FromColumn<'stmt>, C: FromColumn<'stmt>, D: FromColumn<'stmt>, E: FromColumn<'stmt>, F: FromColumn<'stmt>, G: FromColumn<'stmt>>(row: Option<Seq<Cell>>, a: A, b: B, c: C, d: D, e: E, f: F, g: G)
    ensures
        <(A, B, C, D, E, F, G) as Row<'stmt>>::row_result(row, Ok((a, b, c, d, e, f, g))) <==> (read_as::<'stmt, A>(cell_at(row, 0), Ok(a)) && read_as::<'stmt, B>(cell_at(row, 1), Ok(b)) && read_as::<'stmt, C>(cell_at(row, 2), Ok(c)) && read_as::<'stmt, D>(cell_at(row, 3), Ok(d)) && read_as::<'stmt, E>(cell_at(row, 4), Ok(e)) && read_as::<'stmt, F>(cell_at(row, 5), Ok(f)) && read_as::<'stmt, G>(cell_at(row, 6), Ok(g))),
{
}

/// Reading a row as a tuple of 7 succeeds exactly when every column reads
/// alone; otherwise it fails with `MISMATCH` when some column has a type the
/// element does not take, and else with the error of the first column that
/// does not read.
pub proof fn lemma_tuple7_row_fails_at_first<'stmt, A: FromColumn<'stmt>, B: FromColumn<'stmt>, C: FromColumn<'stmt>, D: FromColumn<'stmt>, E: FromColumn<'stmt>, F: FromColumn<'stmt>, G: FromColumn<'stmt>>(row: Option<Seq<Cell>>, r: Result<(A, B, C, D, E, F, G), Error>)
    requires
        <(A, B, C, D, E, F, G) as Row<'stmt>>::row_result(row, r),
    ensures
        r is Ok <==> (readable::<'stmt, A>(cell_at(row, 0)) && readable::<'stmt, B>(cell_at(row, 1)) && readable::<'stmt, C>(cell_at(row, 2)) && readable::<'stmt, D>(cell_at(row, 3)) && readable::<'stmt, E>(cell_at(row, 4)) && readable::<'stmt, F>(cell_at(row, 5)) && readable::<'stmt, G>(cell_at(row, 6))),
        r matches Err(e) ==> if <A::Type as Type>::admits(cell_at(row, 0)) && <B::Type as Type>::admits(cell_at(row, 1)) && <C::Type as Type>::admits(cell_at(row, 2)) && <D::Type as Type>::admits(cell_at(row, 3)) && <E::Type as Type>::admits(cell_at(row, 4)) && <F::Type as Type>::admits(cell_at(row, 5)) && <G::Type as Type>::admits(cell_at(row, 6)) {
            (read_as::<'stmt, A>(cell_at(row, 0), Err(e)))
                || (readable::<'stmt, A>(cell_at(row, 0)) && read_as::<'stmt, B>(cell_at(row, 1), Err(e)))
                || (readable::<'stmt, A>(cell_at(row, 0)) && readable::<'stmt, B>(cell_at(row, 1)) && read_as::<'stmt, C>(cell_at(row, 2), Err(e)))
                || (readable::<'stmt, A>(cell_at(row, 0)) && readable::<'stmt, B>(cell_at(row, 1)) && readable::<'stmt, C>(cell_at(row, 2)) && read_as::<'stmt, D>(cell_at(row, 3), Err(e)))
                || (readable::<'stmt, A>(cell_at(row, 0)) && readable::<'stmt, B>(cell_at(row, 1)) && readable::<'stmt, C>(cell_at(row, 2)) && readable::<'stmt, D>(cell_at(row, 3)) && read_as::<'stmt, E>(cell_at(row, 4), Err(e)))
                || (readable::<'stmt, A>(cell_at(row, 0)) && readable::<'stmt, B>(cell_at(row, 1)) && readable::<'stmt, C>(cell_at(row, 2)) && readable::<'stmt, D>(cell_at(row, 3)) && readable::<'stmt, E>(cell_at(row, 4)) && read_as::<'stmt, F>(cell_at(row, 5), Err(e)))
                || (readable::<'stmt, A>(cell_at(row, 0)) && readable::<'stmt, B>(cell_at(row, 1)) && readable::<'stmt, C>(cell_at(row, 2)) && readable::<'stmt, D>(cell_at(row, 3)) && readable::<'stmt, E>(cell_at(row, 4)) && readable::<'stmt, F>(cell_at(row, 5)) && read_as::<'stmt, G>(cell_at(row, 6), Err(e)))
        } else {
            e.code_spec() == Code::MISMATCH
        },
{
}

/// Reading a row as a tuple of 8 succeeds with exactly the values that
/// reading each column alone gives, element `k` from column `k`.
pub proof fn lemma_tuple8_row_is_columns<'stmt, A: FromColumn<'stmt>, B: FromColumn<'stmt>, C: FromColumn<'stmt>, D: FromColumn<'stmt>, E: FromColumn<'stmt>, F: FromColumn<'stmt>, G: FromColumn<'stmt>, H: FromColumn<'stmt>>(row: Option<Seq<Cell>>, a: A, b: B, c: C, d: D, e: E, f: F, g: G, h: H)
    ensures
        <(A, B, C, D, E, F, G, H) as Row<'stmt>>::row_result(row, Ok((a, b, c, d, e, f, g, h))) <==> (read_as::<'stmt, A>(cell_at(row, 0), Ok(a)) && read_as::<'stmt, B>(cell_at(row, 1), Ok(b)) && read_as::<'stmt, C>(cell_at(row, 2), Ok(c)) && read_as::<'stmt, D>(cell_at(row, 3), Ok(d)) && read_as::<'stmt, E>(cell_at(row, 4), Ok(e)) && read_as::<'stmt, F>(cell_at(row, 5), Ok(f)) && read_as::<'stmt, G>(cell_at(row, 6), Ok(g)) && read_as::<'stmt, H>(cell_at(row, 7), Ok(h))),
{
}

/// Reading a row as a tuple of 8 succeeds exactly when every column reads
/// alone; otherwise it fails with `MISMATCH` when some column has a type the
/// element does not take, and else with the error of the first column that
/// does not read.
pub proof fn lemma_tuple8_row_fails_at_first<'stmt, A: FromColumn<'stmt>, B: FromColumn<'stmt>, C: FromColumn<'stmt>, D: FromColumn<'stmt>, E: FromColumn<'stmt>, F: FromColumn<'stmt>, G: FromColumn<'stmt>, H: FromColumn<'stmt>>(row: Option<Seq<Cell>>, r: Result<(A, B, C, D, E, F, G, H), Error>)
    requires
        <(A, B, C, D, E, F, G, H) as Row<'stmt>>::row_result(row, r),
    ensures
        r is Ok <==> (readable::<'stmt, A>(cell_at(row, 0)) && readable::<'stmt, B>(cell_at(row, 1)) && readable::<'stmt, C>(cell_at(row, 2)) && readable::<'stmt, D>(cell_at(row, 3)) && readable::<'stmt, E>(cell_at(row, 4)) && readable::<'stmt, F>(cell_at(row, 5)) && readable::<'stmt, G>(cell_at(row, 6)) && readable::<'stmt, H>(cell_at(row, 7))),
        r matches Err(e) ==> if <A::Type as Type>::admits(cell_at(row, 0)) && <B::Type as Type>::admits(cell_at(row, 1)) && <C::Type as Type>::admits(cell_at(row, 2)) && <D::Type as Type>::admits(cell_at(row, 3)) && <E::Type as Type>::admits(cell_at(row, 4)) && <F::Type as Type>::admits(cell_at(row, 5)) && <G::Type as Type>::admits(cell_at(row, 6)) && <H::Type as Type>::admits(cell_at(row, 7)) {
            (read_as::<'stmt, A>(cell_at(row, 0), Err(e)))
                || (readable::<'stmt, A>(cell_at(row, 0)) && read_as::<'stmt, B>(cell_at(row, 1), Err(e)))
                || (readable::<'stmt, A>(cell_at(row, 0)) && readable::<'stmt, B>(cell_at(row, 1)) && read_as::<'stmt, C>(cell_at(row, 2), Err(e)))
                || (readable::<'stmt, A>(cell_at(row, 0)) && readable::<'stmt, B>(cell_at(row, 1)) && readable::<'stmt, C>(cell_at(row, 2)) && read_as::<'stmt, D>(cell_at(row, 3), Err(e)))
                || (readable::<'stmt, A>(cell_at(row, 0)) && readable::<'stmt, B>(cell_at(row, 1)) && readable::<'stmt, C>(cell_at(row, 2)) && readable::<'stmt, D>(cell_at(row, 3)) && read_as::<'stmt, E>(cell_at(row, 4), Err(e)))
                || (readable::<'stmt, A>(cell_at(row, 0)) && readable::<'stmt, B>(cell_at(row, 1)) && readable::<'stmt, C>(cell_at(row, 2)) && readable::<'stmt, D>(cell_at(row, 3)) && readable::<'stmt, E>(cell_at(row, 4)) && read_as::<'stmt, F>(cell_at(row, 5), Err(e)))
                || (readable::<'stmt, A>(cell_at(row, 0)) && readable::<'stmt, B>(cell_at(row, 1)) && readable::<'stmt, C>(cell_at(row, 2)) && readable::<'stmt, D>(cell_at(row, 3)) && readable::<'stmt, E>(cell_at(row, 4)) && readable::<'stmt, F>(cell_at(row, 5)) && read_as::<'stmt, G>(cell_at(row, 6), Err(e)))
                || (readable::<'stmt, A>(cell_at(row, 0)) && readable::<'stmt, B>(cell_at(row, 1)) && readable::<'stmt, C>(cell_at(row, 2)) && readable::<'stmt, D>(cell_at(row, 3)) && readable::<'stmt, E>(cell_at(row, 4)) && readable::<'stmt, F>(cell_at(row, 5)) && readable::<'stmt, G>(cell_at(row, 6)) && read_as::<'stmt, H>(cell_at(row, 7), Err(e)))
        } else {
            e.code_spec() == Code::MISMATCH
        },
{
}

/// Reading a row as a tuple of 9 succeeds with exactly the values that
/// reading each column alone gives, element `k` from column `k`.
pub proof fn lemma_tuple9_row_is_columns<'stmt, A: FromColumn<'stmt>, B: FromColumn<'stmt>, C: FromColumn<'stmt>, D: FromColumn<'stmt>, E: FromColumn<'stmt>, F: FromColumn<'stmt>, G: FromColumn<'stmt>, H: FromColumn<'stmt>, I: FromColumn<'stmt>>(row: Option<Seq<Cell>>, a: A, b: B, c: C, d: D, e: E, f: F, g: G, h: H, i: I)
    ensures
        <(A, B, C, D, E, F, G, H, I) as Row<'stmt>>::row_result(row, Ok((a, b, c, d, e, f, g, h, i))) <==> (read_as::<'stmt, A>(cell_at(row, 0), Ok(a)) && read_as::<'stmt, B>(cell_at(row, 1), Ok(b)) && read_as::<'stmt, C>(cell_at(row, 2), Ok(c)) && read_as::<'stmt, D>(cell_at(row, 3), Ok(d)) && read_as::<'stmt, E>(cell_at(row, 4), Ok(e)) && read_as::<'stmt, F>(cell_at(row, 5), Ok(f)) && read_as::<'stmt, G>(cell_at(row, 6), Ok(g)) && read_as::<'stmt, H>(cell_at(row, 7), Ok(h)) && read_as::<'stmt, I>(cell_at(row, 8), Ok(i))),
{
}

/// Reading a row as a tuple of 9 succeeds exactly when every column reads
/// alone; otherwise it fails with `MISMATCH` when some column has a type the
/// element does not take, and else with the error of the first column that
/// does not read.
pub proof fn lemma_tuple9_row_fails_at_first<'stmt, A: FromColumn<'stmt>, B: FromColumn<'stmt>, C: FromColumn<'stmt>, D: FromColumn<'stmt>, E: FromColumn<'stmt>, F: FromColumn<'stmt>, G: FromColumn<'stmt>, H: FromColumn<'stmt>, I: FromColumn<'stmt>>(row: Option<Seq<Cell>>, r: Result<(A, B, C, D, E, F, G, H, I), Error>)
    requires
        <(A, B, C, D, E, F, G, H, I) as Row<'stmt>>::row_result(row, r),
    ensures
        r is Ok <==> (readable::<'stmt, A>(cell_at(row, 0)) && readable::<'stmt, B>(cell_at(row, 1)) && readable::<'stmt, C>(cell_at(row, 2)) && readable::<'stmt, D>(cell_at(row, 3)) && readable::<'stmt, E>(cell_at(row, 4)) && readable::<'stmt, F>(cell_at(row, 5)) && readable::<'stmt, G>(cell_at(row, 6)) && readable::<'stmt, H>(cell_at(row, 7)) && readable::<'stmt, I>(cell_at(row, 8))),
        r matches Err(e) ==> if <A::Type as Type>::admits(cell_at(row, 0)) && <B::Type as Type>::admits(cell_at(row, 1)) && <C::Type as Type>::admits(cell_at(row, 2)) && <D::Type as Type>::admits(cell_at(row, 3)) && <E::Type as Type>::admits(cell_at(row, 4)) && <F::Type as Type>::admits(cell_at(row, 5)) && <G::Type as Type>::admits(cell_at(row, 6)) && <H::Type as Type>::admits(cell_at(row, 7)) && <I::Type as Type>::admits(cell_at(row, 8)) {
            (read_as::<'stmt, A>(cell_at(row, 0), Err(e)))
                || (readable::<'stmt, A>(cell_at(row, 0)) && read_as::<'stmt, B>(cell_at(row, 1), Err(e)))
                || (readable::<'stmt, A>(cell_at(row, 0)) && readable::<'stmt, B>(cell_at(row, 1)) && read_as::<'stmt, C>(cell_at(row, 2), Err(e)))
                || (readable::<'stmt, A>(cell_at(row, 0)) && readable::<'stmt, B>(cell_at(row, 1)) && readable::<'stmt, C>(cell_at(row, 2)) && read_as::<'stmt, D>(cell_at(row, 3), Err(e)))
                || (readable::<'stmt, A>(cell_at(row, 0)) && readable::<'stmt, B>(cell_at(row, 1)) && readable::<'stmt, C>(cell_at(row, 2)) && readable::<'stmt, D>(cell_at(row, 3)) && read_as::<'stmt, E>(cell_at(row, 4), Err(e)))
                || (readable::<'stmt, A>(cell_at(row, 0)) && readable::<'stmt, B>(cell_at(row, 1)) && readable::<'stmt, C>(cell_at(row, 2)) && readable::<'stmt, D>(cell_at(row, 3)) && readable::<'stmt, E>(cell_at(row, 4)) && read_as::<'stmt, F>(cell_at(row, 5), Err(e)))
                || (readable::<'stmt, A>(cell_at(row, 0)) && readable::<'stmt, B>(cell_at(row, 1)) && readable::<'stmt, C>(cell_at(row, 2)) && readable::<'stmt, D>(cell_at(row, 3)) && readable::<'stmt, E>(cell_at(row, 4)) && readable::<'stmt, F>(cell_at(row, 5)) && read_as::<'stmt, G>(cell_at(row, 6), Err(e)))
                || (readable::<'stmt, A>(cell_at(row, 0)) && readable::<'stmt, B>(cell_at(row, 1)) && readable::<'stmt, C>(cell_at(row, 2)) && readable::<'stmt, D>(cell_at(row, 3)) && readable::<'stmt, E>(cell_at(row, 4)) && readable::<'stmt, F>(cell_at(row, 5)) && readable::<'stmt, G>(cell_at(row, 6)) && read_as::<'stmt, H>(cell_at(row, 7), Err(e)))
                || (readable::<'stmt, A>(cell_at(row, 0)) && readable::<'stmt, B>(cell_at(row, 1)) && readable::<'stmt, C>(cell_at(row, 2)) && readable::<'stmt, D>(cell_at(row, 3)) && readable::<'stmt, E>(cell_at(row, 4)) && readable::<'stmt, F>(cell_at(row, 5)) && readable::<'stmt, G>(cell_at(row, 6)) && readable::<'stmt, H>(cell_at(row, 7)) && read_as::<'stmt, I>(cell_at(row, 8), Err(e)))
        } else {
            e.code_spec() == Code::MISMATCH
        },
{
}

/// Reading a row as a tuple of 10 succeeds with exactly the values that
/// reading each column alone gives, element `k` from column `k`.
pub proof fn lemma_tuple10_row_is_columns<'stmt, A: FromColumn<'stmt>, B: FromColumn<'stmt>, C: FromColumn<'stmt>, D: FromColumn<'stmt>, E: FromColumn<'stmt>, F: FromColumn<'stmt>, G: FromColumn<'stmt>, H: FromColumn<'stmt>, I: FromColumn<'stmt>, J: FromColumn<'stmt>>(row: Option<Seq<Cell>>, a: A, b: B, c: C, d: D, e: E, f: F, g: G, h: H, i: I, j: J)
    ensures
        <(A, B, C, D, E, F, G, H, I, J) as Row<'stmt>>::row_result(row, Ok((a, b, c, d, e, f, g, h, i, j))) <==> (read_as::<'stmt, A>(cell_at(row, 0), Ok(a)) && read_as::<'stmt, B>(cell_at(row, 1), Ok(b)) && read_as::<'stmt, C>(cell_at(row, 2), Ok(c)) && read_as::<'stmt, D>(cell_at(row, 3), Ok(d)) && read_as::<'stmt, E>(cell_at(row, 4), Ok(e)) && read_as::<'stmt, F>(cell_at(row, 5), Ok(f)) && read_as::<'stmt, G>(cell_at(row, 6), Ok(g)) && read_as::<'stmt, H>(cell_at(row, 7), Ok(h)) && read_as::<'stmt, I>(cell_at(row, 8), Ok(i)) && read_as::<'stmt, J>(cell_at(row, 9), Ok(j))),
{
}

/// Reading a row as a tuple of 10 succeeds exactly when every column reads
/// alone; otherwise it fails with `MISMATCH` when some column has a type the
/// element does not take, and else with the error of the first column that
/// does not read.
pub proof fn lemma_tuple10_row_fails_at_first<'stmt, A: FromColumn<'stmt>, B: FromColumn<'stmt>, C: FromColumn<'stmt>, D: FromColumn<'stmt>, E: FromColumn<'stmt>, F: FromColumn<'stmt>, G: FromColumn<'stmt>, H: FromColumn<'stmt>, I: FromColumn<'stmt>, J: FromColumn<'stmt>>(row: Option<Seq<Cell>>, r: Result<(A, B, C, D, E, F, G, H, I, J), Error>)
    requires
        <(A, B, C, D, E, F, G, H, I, J) as Row<'stmt>>::row_result(row, r),
    ensures
        r is Ok <==> (readable::<'stmt, A>(cell_at(row, 0)) && readable::<'stmt, B>(cell_at(row, 1)) && readable::<'stmt, C>(cell_at(row, 2)) && readable::<'stmt, D>(cell_at(row, 3)) && readable::<'stmt, E>(cell_at(row, 4)) && readable::<'stmt, F>(cell_at(row, 5)) && readable::<'stmt, G>(cell_at(row, 6)) && readable::<'stmt, H>(cell_at(row, 7)) && readable::<'stmt, I>(cell_at(row, 8)) && readable::<'stmt, J>(cell_at(row, 9))),
        r matches Err(e) ==> if <A::Type as Type>::admits(cell_at(row, 0)) && <B::Type as Type>::admits(cell_at(row, 1)) && <C::Type as Type>::admits(cell_at(row, 2)) && <D::Type as Type>::admits(cell_at(row, 3)) && <E::Type as Type>::admits(cell_at(row, 4)) && <F::Type as Type>::admits(cell_at(row, 5)) && <G::Type as Type>::admits(cell_at(row, 6)) && <H::Type as Type>::admits(cell_at(row, 7)) && <I::Type as Type>::admits(cell_at(row, 8)) && <J::Type as Type>::admits(cell_at(row, 9)) {
            (read_as::<'stmt, A>(cell_at(row, 0), Err(e)))
                || (readable::<'stmt, A>(cell_at(row, 0)) && read_as::<'stmt, B>(cell_at(row, 1), Err(e)))
                || (readable::<'stmt, A>(cell_at(row, 0)) && readable::<'stmt, B>(cell_at(row, 1)) && read_as::<'stmt, C>(cell_at(row, 2), Err(e)))
                || (readable::<'stmt, A>(cell_at(row, 0)) && readable::<'stmt, B>(cell_at(row, 1)) && readable::<'stmt, C>(cell_at(row, 2)) && read_as::<'stmt, D>(cell_at(row, 3), Err(e)))
                || (readable::<'stmt, A>(cell_at(row, 0)) && readable::<'stmt, B>(cell_at(row, 1)) && readable::<'stmt, C>(cell_at(row, 2)) && readable::<'stmt, D>(cell_at(row, 3)) && read_as::<'stmt, E>(cell_at(row, 4), Err(e)))
                || (readable::<'stmt, A>(cell_at(row, 0)) && readable::<'stmt, B>(cell_at(row, 1)) && readable::<'stmt, C>(cell_at(row, 2)) && readable::<'stmt, D>(cell_at(row, 3)) && readable::<'stmt, E>(cell_at(row, 4)) && read_as::<'stmt, F>(cell_at(row, 5), Err(e)))
                || (readable::<'stmt, A>(cell_at(row, 0)) && readable::<'stmt, B>(cell_at(row, 1)) && readable::<'stmt, C>(cell_at(row, 2)) && readable::<'stmt, D>(cell_at(row, 3)) && readable::<'stmt, E>(cell_at(row, 4)) && readable::<'stmt, F>(cell_at(row, 5)) && read_as::<'stmt, G>(cell_at(row, 6), Err(e)))
                || (readable::<'stmt, A>(cell_at(row, 0)) && readable::<'stmt, B>(cell_at(row, 1)) && readable::<'stmt, C>(cell_at(row, 2)) && readable::<'stmt, D>(cell_at(row, 3)) && readable::<'stmt, E>(cell_at(row, 4)) && readable::<'stmt, F>(cell_at(row, 5)) && readable::<'stmt, G>(cell_at(row, 6)) && read_as::<'stmt, H>(cell_at(row, 7), Err(e)))
                || (readable::<'stmt, A>(cell_at(row, 0)) && readable::<'stmt, B>(cell_at(row, 1)) && readable::<'stmt, C>(cell_at(row, 2)) && readable::<'stmt, D>(cell_at(row, 3)) && readable::<'stmt, E>(cell_at(row, 4)) && readable::<'stmt, F>(cell_at(row, 5)) && readable::<'stmt, G>(cell_at(row, 6)) && readable::<'stmt, H>(cell_at(row, 7)) && read_as::<'stmt, I>(cell_at(row, 8), Err(e)))
                || (readable::<'stmt, A>(cell_at(row, 0)) && readable::<'stmt, B>(cell_at(row, 1)) && readable::<'stmt, C>(cell_at(row, 2)) && readable::<'stmt, D>(cell_at(row, 3)) && readable::<'stmt, E>(cell_at(row, 4)) && readable::<'stmt, F>(cell_at(row, 5)) && readable::<'stmt, G>(cell_at(row, 6)) && readable::<'stmt, H>(cell_at(row, 7)) && readable::<'stmt, I>(cell_at(row, 8)) && read_as::<'stmt, J>(cell_at(row, 9), Err(e)))
        } else {
            e.code_spec() == Code::MISMATCH
        },
{
}

/// Reading a row as a tuple of 11 succeeds with exactly the values that
/// reading each column alone gives, element `k` from column `k`.
pub proof fn lemma_tuple11_row_is_columns<'stmt, A: FromColumn<'stmt>, B: FromColumn<'stmt>, C: FromColumn<'stmt>, D: FromColumn<'stmt>, E: FromColumn<'stmt>, F: FromColumn<'stmt>, G: FromColumn<'stmt>, H: FromColumn<'stmt>, I: FromColumn<'stmt>, J: FromColumn<'stmt>, K: FromColumn<'stmt>>(row: Option<Seq<Cell>>, a: A, b: B, c: C, d: D, e: E, f: F, g: G, h: H, i: I, j: J, k: K)
    ensures
        <(A, B, C, D, E, F, G, H, I, J, K) as Row<'stmt>>::row_result(row, Ok((a, b, c, d, e, f, g, h, i, j, k))) <==> (read_as::<'stmt, A>(cell_at(row, 0), Ok(a)) && read_as::<'stmt, B>(cell_at(row, 1), Ok(b)) && read_as::<'stmt, C>(cell_at(row, 2), Ok(c)) && read_as::<'stmt, D>(cell_at(row, 3), Ok(d)) && read_as::<'stmt, E>(cell_at(row, 4), Ok(e)) && read_as::<'stmt, F>(cell_at(row, 5), Ok(f)) && read_as::<'stmt, G>(cell_at(row, 6), Ok(g)) && read_as::<'stmt, H>(cell_at(row, 7), Ok(h)) && read_as::<'stmt, I>(cell_at(row, 8), Ok(i)) && read_as::<'stmt, J>(cell_at(row, 9), Ok(j)) && read_as::<'stmt, K>(cell_at(row, 10), Ok(k))),
{
}

/// Reading a row as a tuple of 11 succeeds exactly when every column reads
/// alone; otherwise it fails with `MISMATCH` when some column has a type the
/// element does not take, and else with the error of the first column that
/// does not read.
pub proof fn lemma_tuple11_row_fails_at_first<'stmt, A: FromColumn<'stmt>, B: FromColumn<'stmt>, C: FromColumn<'stmt>, D: FromColumn<'stmt>, E: FromColumn<'stmt>, F: FromColumn<'stmt>, G: FromColumn<'stmt>, H: FromColumn<'stmt>, I: FromColumn<'stmt>, J: FromColumn<'stmt>, K: FromColumn<'stmt>>(row: Option<Seq<Cell>>, r: Result<(A, B, C, D, E, F, G, H, I, J, K), Error>)
    requires
        <(A, B, C, D, E, F, G, H, I, J, K) as Row<'stmt>>::row_result(row, r),
    ensures
        r is Ok <==> (readable::<'stmt, A>(cell_at(row, 0)) && readable::<'stmt, B>(cell_at(row, 1)) && readable::<'stmt, C>(cell_at(row, 2)) && readable::<'stmt, D>(cell_at(row, 3)) && readable::<'stmt, E>(cell_at(row, 4)) && readable::<'stmt, F>(cell_at(row, 5)) && readable::<'stmt, G>(cell_at(row, 6)) && readable::<'stmt, H>(cell_at(row, 7)) && readable::<'stmt, I>(cell_at(row, 8)) && readable::<'stmt, J>(cell_at(row, 9)) && readable::<'stmt, K>(cell_at(row, 10))),
        r matches Err(e) ==> if <A::Type as Type>::admits(cell_at(row, 0)) && <B::Type as Type>::admits(cell_at(row, 1)) && <C::Type as Type>::admits(cell_at(row, 2)) && <D::Type as Type>::admits(cell_at(row, 3)) && <E::Type as Type>::admits(cell_at(row, 4)) && <F::Type as Type>::admits(cell_at(row, 5)) && <G::Type as Type>::admits(cell_at(row, 6)) && <H::Type as Type>::admits(cell_at(row, 7)) && <I::Type as Type>::admits(cell_at(row, 8)) && <J::Type as Type>::admits(cell_at(row, 9)) && <K::Type as Type>::admits(cell_at(row, 10)) {
            (read_as::<'stmt, A>(cell_at(row, 0), Err(e)))
                || (readable::<'stmt, A>(cell_at(row, 0)) && read_as::<'stmt, B>(cell_at(row, 1), Err(e)))
                || (readable::<'stmt, A>(cell_at(row, 0)) && readable::<'stmt, B>(cell_at(row, 1)) && read_as::<'stmt, C>(cell_at(row, 2), Err(e)))
                || (readable::<'stmt, A>(cell_at(row, 0)) && readable::<'stmt, B>(cell_at(row, 1)) && readable::<'stmt, C>(cell_at(row, 2)) && read_as::<'stmt, D>(cell_at(row, 3), Err(e)))
                || (readable::<'stmt, A>(cell_at(row, 0)) && readable::<'stmt, B>(cell_at(row, 1)) && readable::<'stmt, C>(cell_at(row, 2)) && readable::<'stmt, D>(cell_at(row, 3)) && read_as::<'stmt, E>(cell_at(row, 4), Err(e)))
                || (readable::<'stmt, A>(cell_at(row, 0)) && readable::<'stmt, B>(cell_at(row, 1)) && readable::<'stmt, C>(cell_at(row, 2)) && readable::<'stmt, D>(cell_at(row, 3)) && readable::<'stmt, E>(cell_at(row, 4)) && read_as::<'stmt, F>(cell_at(row, 5), Err(e)))
                || (readable::<'stmt, A>(cell_at(row, 0)) && readable::<'stmt, B>(cell_at(row, 1)) && readable::<'stmt, C>(cell_at(row, 2)) && readable::<'stmt, D>(cell_at(row, 3)) && readable::<'stmt, E>(cell_at(row, 4)) && readable::<'stmt, F>(cell_at(row, 5)) && read_as::<'stmt, G>(cell_at(row, 6), Err(e)))
                || (readable::<'stmt, A>(cell_at(row, 0)) && readable::<'stmt, B>(cell_at(row, 1)) && readable::<'stmt, C>(cell_at(row, 2)) && readable::<'stmt, D>(cell_at(row, 3)) && readable::<'stmt, E>(cell_at(row, 4)) && readable::<'stmt, F>(cell_at(row, 5)) && readable::<'stmt, G>(cell_at(row, 6)) && read_as::<'stmt, H>(cell_at(row, 7), Err(e)))
                || (readable::<'stmt, A>(cell_at(row, 0)) && readable::<'stmt, B>(cell_at(row, 1)) && readable::<'stmt, C>(cell_at(row, 2)) && readable::<'stmt, D>(cell_at(row, 3)) && readable::<'stmt, E>(cell_at(row, 4)) && readable::<'stmt, F>(cell_at(row, 5)) && readable::<'stmt, G>(cell_at(row, 6)) && readable::<'stmt, H>(cell_at(row, 7)) && read_as::<'stmt, I>(cell_at(row, 8), Err(e)))
                || (readable::<'stmt, A>(cell_at(row, 0)) && readable::<'stmt, B>(cell_at(row, 1)) && readable::<'stmt, C>(cell_at(row, 2)) && readable::<'stmt, D>(cell_at(row, 3)) && readable::<'stmt, E>(cell_at(row, 4)) && readable::<'stmt, F>(cell_at(row, 5)) && readable::<'stmt, G>(cell_at(row, 6)) && readable::<'stmt, H>(cell_at(row, 7)) && readable::<'stmt, I>(cell_at(row, 8)) && read_as::<'stmt, J>(cell_at(row, 9), Err(e)))
                || (readable::<'stmt, A>(cell_at(row, 0)) && readable::<'stmt, B>(cell_at(row, 1)) && readable::<'stmt, C>(cell_at(row, 2)) && readable::<'stmt, D>(cell_at(row, 3)) && readable::<'stmt, E>(cell_at(row, 4)) && readable::<'stmt, F>(cell_at(row, 5)) && readable::<'stmt, G>(cell_at(row, 6)) && readable::<'stmt, H>(cell_at(row, 7)) && readable::<'stmt, I>(cell_at(row, 8)) && readable::<'stmt, J>(cell_at(row, 9)) && read_as::<'stmt, K>(cell_at(row, 10), Err(e)))
        } else {
            e.code_spec() == Code::MISMATCH
        },
{
}

/// Reading a row as a tuple of 12 succeeds with exactly the values that
/// reading each column alone gives, element `k` from column `k`.
pub proof fn lemma_tuple12_row_is_columns<'stmt, A: FromColumn<'stmt>, B: FromColumn<'stmt>, C: FromColumn<'stmt>, D: FromColumn<'stmt>, E: FromColumn<'stmt>, F: FromColumn<'stmt>, G: FromColumn<'stmt>, H: FromColumn<'stmt>, I: FromColumn<'stmt>, J: FromColumn<'stmt>, K: FromColumn<'stmt>, L: FromColumn<'stmt>>(row: Option<Seq<Cell>>, a: A, b: B, c: C, d: D, e: E, f: F, g: G, h: H, i: I, j: J, k: K, l: L)
    ensures
        <(A, B, C, D, E, F, G, H, I, J, K, L) as Row<'stmt>>::row_result(row, Ok((a, b, c, d, e, f, g, h, i, j, k, l))) <==> (read_as::<'stmt, A>(cell_at(row, 0), Ok(a)) && read_as::<'stmt, B>(cell_at(row, 1), Ok(b)) && read_as::<'stmt, C>(cell_at(row, 2), Ok(c)) && read_as::<'stmt, D>(cell_at(row, 3), Ok(d)) && read_as::<'stmt, E>(cell_at(row, 4), Ok(e)) && read_as::<'stmt, F>(cell_at(row, 5), Ok(f)) && read_as::<'stmt, G>(cell_at(row, 6), Ok(g)) && read_as::<'stmt, H>(cell_at(row, 7), Ok(h)) && read_as::<'stmt, I>(cell_at(row, 8), Ok(i)) && read_as::<'stmt, J>(cell_at(row, 9), Ok(j)) && read_as::<'stmt, K>(cell_at(row, 10), Ok(k)) && read_as::<'stmt, L>(cell_at(row, 11), Ok(l))),
{
}

/// Reading a row as a tuple of 12 succeeds exactly when every column reads
/// alone; otherwise it fails with `MISMATCH` when some column has a type the
/// element does not take, and else with the error of the first column that
/// does not read.
pub proof fn lemma_tuple12_row_fails_at_first<'stmt, A: FromColumn<'stmt>, B: FromColumn<'stmt>, C: FromColumn<'stmt>, D: FromColumn<'stmt>, E: FromColumn<'stmt>, F: FromColumn<'stmt>, G: FromColumn<'stmt>, H: FromColumn<'stmt>, I: FromColumn<'stmt>, J: FromColumn<'stmt>, K: FromColumn<'stmt>, L: FromColumn<'stmt>>(row: Option<Seq<Cell>>, r: Result<(A, B, C, D, E, F, G, H, I, J, K, L), Error>)
    requires
        <(A, B, C, D, E, F, G, H, I, J, K, L) as Row<'stmt>>::row_result(row, r),
    ensures
        r is Ok <==> (readable::<'stmt, A>(cell_at(row, 0)) && readable::<'stmt, B>(cell_at(row, 1)) && readable::<'stmt, C>(cell_at(row, 2)) && readable::<'stmt, D>(cell_at(row, 3)) && readable::<'stmt, E>(cell_at(row, 4)) && readable::<'stmt, F>(cell_at(row, 5)) && readable::<'stmt, G>(cell_at(row, 6)) && readable::<'stmt, H>(cell_at(row, 7)) && readable::<'stmt, I>(cell_at(row, 8)) && readable::<'stmt, J>(cell_at(row, 9)) && readable::<'stmt, K>(cell_at(row, 10)) && readable::<'stmt, L>(cell_at(row, 11))),
        r matches Err(e) ==> if <A::Type as Type>::admits(cell_at(row, 0)) && <B::Type as Type>::admits(cell_at(row, 1)) && <C::Type as Type>::admits(cell_at(row, 2)) && <D::Type as Type>::admits(cell_at(row, 3)) && <E::Type as Type>::admits(cell_at(row, 4)) && <F::Type as Type>::admits(cell_at(row, 5)) && <G::Type as Type>::admits(cell_at(row, 6)) && <H::Type as Type>::admits(cell_at(row, 7)) && <I::Type as Type>::admits(cell_at(row, 8)) && <J::Type as Type>::admits(cell_at(row, 9)) && <K::Type as Type>::admits(cell_at(row, 10)) && <L::Type as Type>::admits(cell_at(row, 11)) {
            (read_as::<'stmt, A>(cell_at(row, 0), Err(e)))
                || (readable::<'stmt, A>(cell_at(row, 0)) && read_as::<'stmt, B>(cell_at(row, 1), Err(e)))
                || (readable::<'stmt, A>(cell_at(row, 0)) && readable::<'stmt, B>(cell_at(row, 1)) && read_as::<'stmt, C>(cell_at(row, 2), Err(e)))
                || (readable::<'stmt, A>(cell_at(row, 0)) && readable::<'stmt, B>(cell_at(row, 1)) && readable::<'stmt, C>(cell_at(row, 2)) && read_as::<'stmt, D>(cell_at(row, 3), Err(e)))
                || (readable::<'stmt, A>(cell_at(row, 0)) && readable::<'stmt, B>(cell_at(row, 1)) && readable::<'stmt, C>(cell_at(row, 2)) && readable::<'stmt, D>(cell_at(row, 3)) && read_as::<'stmt, E>(cell_at(row, 4), Err(e)))
                || (readable::<'stmt, A>(cell_at(row, 0)) && readable::<'stmt, B>(cell_at(row, 1)) && readable::<'stmt, C>(cell_at(row, 2)) && readable::<'stmt, D>(cell_at(row, 3)) && readable::<'stmt, E>(cell_at(row, 4)) && read_as::<'stmt, F>(cell_at(row, 5), Err(e)))
                || (readable::<'stmt, A>(cell_at(row, 0)) && readable::<'stmt, B>(cell_at(row, 1)) && readable::<'stmt, C>(cell_at(row, 2)) && readable::<'stmt, D>(cell_at(row, 3)) && readable::<'stmt, E>(cell_at(row, 4)) && readable::<'stmt, F>(cell_at(row, 5)) && read_as::<'stmt, G>(cell_at(row, 6), Err(e)))
                || (readable::<'stmt, A>(cell_at(row, 0)) && readable::<'stmt, B>(cell_at(row, 1)) && readable::<'stmt, C>(cell_at(row, 2)) && readable::<'stmt, D>(cell_at(row, 3)) && readable::<'stmt, E>(cell_at(row, 4)) && readable::<'stmt, F>(cell_at(row, 5)) && readable::<'stmt, G>(cell_at(row, 6)) && read_as::<'stmt, H>(cell_at(row, 7), Err(e)))
                || (readable::<'stmt, A>(cell_at(row, 0)) && readable::<'stmt, B>(cell_at(row, 1)) && readable::<'stmt, C>(cell_at(row, 2)) && readable::<'stmt, D>(cell_at(row, 3)) && readable::<'stmt, E>(cell_at(row, 4)) && readable::<'stmt, F>(cell_at(row, 5)) && readable::<'stmt, G>(cell_at(row, 6)) && readable::<'stmt, H>(cell_at(row, 7)) && read_as::<'stmt, I>(cell_at(row, 8), Err(e)))
                || (readable::<'stmt, A>(cell_at(row, 0)) && readable::<'stmt, B>(cell_at(row, 1)) && readable::<'stmt, C>(cell_at(row, 2)) && readable::<'stmt, D>(cell_at(row, 3)) && readable::<'stmt, E>(cell_at(row, 4)) && readable::<'stmt, F>(cell_at(row, 5)) && readable::<'stmt, G>(cell_at(row, 6)) && readable::<'stmt, H>(cell_at(row, 7)) && readable::<'stmt, I>(cell_at(row, 8)) && read_as::<'stmt, J>(cell_at(row, 9), Err(e)))
                || (readable::<'stmt, A>(cell_at(row, 0)) && readable::<'stmt, B>(cell_at(row, 1)) && readable::<'stmt, C>(cell_at(row, 2)) && readable::<'stmt, D>(cell_at(row, 3)) && readable::<'stmt, E>(cell_at(row, 4)) && readable::<'stmt, F>(cell_at(row, 5)) && readable::<'stmt, G>(cell_at(row, 6)) && readable::<'stmt, H>(cell_at(row, 7)) && readable::<'stmt, I>(cell_at(row, 8)) && readable::<'stmt, J>(cell_at(row, 9)) && read_as::<'stmt, K>(cell_at(row, 10), Err(e)))
                || (readable::<'stmt, A>(cell_at(row, 0)) && readable::<'stmt, B>(cell_at(row, 1)) && readable::<'stmt, C>(cell_at(row, 2)) && readable::<'stmt, D>(cell_at(row, 3)) && readable::<'stmt, E>(cell_at(row, 4)) && readable::<'stmt, F>(cell_at(row, 5)) && readable::<'stmt, G>(cell_at(row, 6)) && readable::<'stmt, H>(cell_at(row, 7)) && readable::<'stmt, I>(cell_at(row, 8)) && readable::<'stmt, J>(cell_at(row, 9)) && readable::<'stmt, K>(cell_at(row, 10)) && read_as::<'stmt, L>(cell_at(row, 11), Err(e)))
        } else {
            e.code_spec() == Code::MISMATCH
        },
{
}

/// Reading a row as a tuple of 13 succeeds with exactly the values that
/// reading each column alone gives, element `k` from column `k`.
pub proof fn lemma_tuple13_row_is_columns<'stmt, A: FromColumn<'stmt>, B: FromColumn<'stmt>, C: FromColumn<'stmt>, D: FromColumn<'stmt>, E: FromColumn<'stmt>, F: FromColumn<'stmt>, G: FromColumn<'stmt>, H: FromColumn<'stmt>, I: FromColumn<'stmt>, J: FromColumn<'stmt>, K: FromColumn<'stmt>, L: FromColumn<'stmt>, M: FromColumn<'stmt>>(row: Option<Seq<Cell>>, a: A, b: B, c: C, d: D, e: E, f: F, g: G, h: H, i: I, j: J, k: K, l: L, m: M)
    ensures
        <(A, B, C, D, E, F, G, H, I, J, K, L, M) as Row<'stmt>>::row_result(row, Ok((a, b, c, d, e, f, g, h, i, j, k, l, m))) <==> (read_as::<'stmt, A>(cell_at(row, 0), Ok(a)) && read_as::<'stmt, B>(cell_at(row, 1), Ok(b)) && read_as::<'stmt, C>(cell_at(row, 2), Ok(c)) && read_as::<'stmt, D>(cell_at(row, 3), Ok(d)) && read_as::<'stmt, E>(cell_at(row, 4), Ok(e)) && read_as::<'stmt, F>(cell_at(row, 5), Ok(f)) && read_as::<'stmt, G>(cell_at(row, 6), Ok(g)) && read_as::<'stmt, H>(cell_at(row, 7), Ok(h)) && read_as::<'stmt, I>(cell_at(row, 8), Ok(i)) && read_as::<'stmt, J>(cell_at(row, 9), Ok(j)) && read_as::<'stmt, K>(cell_at(row, 10), Ok(k)) && read_as::<'stmt, L>(cell_at(row, 11), Ok(l)) && read_as::<'stmt, M>(cell_at(row, 12), Ok(m))),
{
}

/// Reading a row as a tuple of 13 succeeds exactly when every column reads
/// alone; otherwise it fails with `MISMATCH` when some column has a type the
/// element does not take, and else with the error of the first column that
/// does not read.
pub proof fn lemma_tuple13_row_fails_at_first<'stmt, A: FromColumn<'stmt>, B: FromColumn<'stmt>, C: FromColumn<'stmt>, D: FromColumn<'stmt>, E: FromColumn<'stmt>, F: FromColumn<'stmt>, G: FromColumn<'stmt>, H: FromColumn<'stmt>, I: FromColumn<'stmt>, J: FromColumn<'stmt>, K: FromColumn<'stmt>, L: FromColumn<'stmt>, M: FromColumn<'stmt>>(row: Option<Seq<Cell>>, r: Result<(A, B, C, D, E, F, G, H, I, J, K, L, M), Error>)
    requires
        <(A, B, C, D, E, F, G, H, I, J, K, L, M) as Row<'stmt>>::row_result(row, r),
    ensures
        r is Ok <==> (readable::<'stmt, A>(cell_at(row, 0)) && readable::<'stmt, B>(cell_at(row, 1)) && readable::<'stmt, C>(cell_at(row, 2)) && readable::<'stmt, D>(cell_at(row, 3)) && readable::<'stmt, E>(cell_at(row, 4)) && readable::<'stmt, F>(cell_at(row, 5)) && readable::<'stmt, G>(cell_at(row, 6)) && readable::<'stmt, H>(cell_at(row, 7)) && readable::<'stmt, I>(cell_at(row, 8)) && readable::<'stmt, J>(cell_at(row, 9)) && readable::<'stmt, K>(cell_at(row, 10)) && readable::<'stmt, L>(cell_at(row, 11)) && readable::<'stmt, M>(cell_at(row, 12))),
        r matches Err(e) ==> if <A::Type as Type>::admits(cell_at(row, 0)) && <B::Type as Type>::admits(cell_at(row, 1)) && <C::Type as Type>::admits(cell_at(row, 2)) && <D::Type as Type>::admits(cell_at(row, 3)) && <E::Type as Type>::admits(cell_at(row, 4)) && <F::Type as Type>::admits(cell_at(row, 5)) && <G::Type as Type>::admits(cell_at(row, 6)) && <H::Type as Type>::admits(cell_at(row, 7)) && <I::Type as Type>::admits(cell_at(row, 8)) && <J::Type as Type>::admits(cell_at(row, 9)) && <K::Type as Type>::admits(cell_at(row, 10)) && <L::Type as Type>::admits(cell_at(row, 11)) && <M::Type as Type>::admits(cell_at(row, 12)) {
            (read_as::<'stmt, A>(cell_at(row, 0), Err(e)))
                || (readable::<'stmt, A>(cell_at(row, 0)) && read_as::<'stmt, B>(cell_at(row, 1), Err(e)))
                || (readable::<'stmt, A>(cell_at(row, 0)) && readable::<'stmt, B>(cell_at(row, 1)) && read_as::<'stmt, C>(cell_at(row, 2), Err(e)))
                || (readable::<'stmt, A>(cell_at(row, 0)) && readable::<'stmt, B>(cell_at(row, 1)) && readable::<'stmt, C>(cell_at(row, 2)) && read_as::<'stmt, D>(cell_at(row, 3), Err(e)))
                || (readable::<'stmt, A>(cell_at(row, 0)) && readable::<'stmt, B>(cell_at(row, 1)) && readable::<'stmt, C>(cell_at(row, 2)) && readable::<'stmt, D>(cell_at(row, 3)) && read_as::<'stmt, E>(cell_at(row, 4), Err(e)))
                || (readable::<'stmt, A>(cell_at(row, 0)) && readable::<'stmt, B>(cell_at(row, 1)) && readable::<'stmt, C>(cell_at(row, 2)) && readable::<'stmt, D>(cell_at(row, 3)) && readable::<'stmt, E>(cell_at(row, 4)) && read_as::<'stmt, F>(cell_at(row, 5), Err(e)))
                || (readable::<'stmt, A>(cell_at(row, 0)) && readable::<'stmt, B>(cell_at(row, 1)) && readable::<'stmt, C>(cell_at(row, 2)) && readable::<'stmt, D>(cell_at(row, 3)) && readable::<'stmt, E>(cell_at(row, 4)) && readable::<'stmt, F>(cell_at(row, 5)) && read_as::<'stmt, G>(cell_at(row, 6), Err(e)))
                || (readable::<'stmt, A>(cell_at(row, 0)) && readable::<'stmt, B>(cell_at(row, 1)) && readable::<'stmt, C>(cell_at(row, 2)) && readable::<'stmt, D>(cell_at(row, 3)) && readable::<'stmt, E>(cell_at(row, 4)) && readable::<'stmt, F>(cell_at(row, 5)) && readable::<'stmt, G>(cell_at(row, 6)) && read_as::<'stmt, H>(cell_at(row, 7), Err(e)))
                || (readable::<'stmt, A>(cell_at(row, 0)) && readable::<'stmt, B>(cell_at(row, 1)) && readable::<'stmt, C>(cell_at(row, 2)) && readable::<'stmt, D>(cell_at(row, 3)) && readable::<'stmt, E>(cell_at(row, 4)) && readable::<'stmt, F>(cell_at(row, 5)) && readable::<'stmt, G>(cell_at(row, 6)) && readable::<'stmt, H>(cell_at(row, 7)) && read_as::<'stmt, I>(cell_at(row, 8), Err(e)))
                || (readable::<'stmt, A>(cell_at(row, 0)) && readable::<'stmt, B>(cell_at(row, 1)) && readable::<'stmt, C>(cell_at(row, 2)) && readable::<'stmt, D>(cell_at(row, 3)) && readable::<'stmt, E>(cell_at(row, 4)) && readable::<'stmt, F>(cell_at(row, 5)) && readable::<'stmt, G>(cell_at(row, 6)) && readable::<'stmt, H>(cell_at(row, 7)) && readable::<'stmt, I>(cell_at(row, 8)) && read_as::<'stmt, J>(cell_at(row, 9), Err(e)))
                || (readable::<'stmt, A>(cell_at(row, 0)) && readable::<'stmt, B>(cell_at(row, 1)) && readable::<'stmt, C>(cell_at(row, 2)) && readable::<'stmt, D>(cell_at(row, 3)) && readable::<'stmt, E>(cell_at(row, 4)) && readable::<'stmt, F>(cell_at(row, 5)) && readable::<'stmt, G>(cell_at(row, 6)) && readable::<'stmt, H>(cell_at(row, 7)) && readable::<'stmt, I>(cell_at(row, 8)) && readable::<'stmt, J>(cell_at(row, 9)) && read_as::<'stmt, K>(cell_at(row, 10), Err(e)))
                || (readable::<'stmt, A>(cell_at(row, 0)) && readable::<'stmt, B>(cell_at(row, 1)) && readable::<'stmt, C>(cell_at(row, 2)) && readable::<'stmt, D>(cell_at(row, 3)) && readable::<'stmt, E>(cell_at(row, 4)) && readable::<'stmt, F>(cell_at(row, 5)) && readable::<'stmt, G>(cell_at(row, 6)) && readable::<'stmt, H>(cell_at(row, 7)) && readable::<'stmt, I>(cell_at(row, 8)) && readable::<'stmt, J>(cell_at(row, 9)) && readable::<'stmt, K>(cell_at(row, 10)) && read_as::<'stmt, L>(cell_at(row, 11), Err(e)))
                || (readable::<'stmt, A>(cell_at(row, 0)) && readable::<'stmt, B>(cell_at(row, 1)) && readable::<'stmt, C>(cell_at(row, 2)) && readable::<'stmt, D>(cell_at(row, 3)) && readable::<'stmt, E>(cell_at(row, 4)) && readable::<'stmt, F>(cell_at(row, 5)) && readable::<'stmt, G>(cell_at(row, 6)) && readable::<'stmt, H>(cell_at(row, 7)) && readable::<'stmt, I>(cell_at(row, 8)) && readable::<'stmt, J>(cell_at(row, 9)) && readable::<'stmt, K>(cell_at(row, 10)) && readable::<'stmt, L>(cell_at(row, 11)) && read_as::<'stmt, M>(cell_at(row, 12), Err(e)))
        } else {
            e.code_spec() == Code::MISMATCH
        },
{
}

/// Reading a row as a tuple of 14 succeeds with exactly the values that
/// reading each column alone gives, element `k` from column `k`.
pub proof fn lemma_tuple14_row_is_columns<'stmt, A: FromColumn<'stmt>, B: FromColumn<'stmt>, C: FromColumn<'stmt>, D: FromColumn<'stmt>, E: FromColumn<'stmt>, F: FromColumn<'stmt>, G: FromColumn<'stmt>, H: FromColumn<'stmt>, I: FromColumn<'stmt>, J: FromColumn<'stmt>, K: FromColumn<'stmt>, L: FromColumn<'stmt>, M: FromColumn<'stmt>, N: FromColumn<'stmt>>(row: Option<Seq<Cell>>, a: A, b: B, c: C, d: D, e: E, f: F, g: G, h: H, i: I, j: J, k: K, l: L, m: M, n: N)
    ensures
        <(A, B, C, D, E, F, G, H, I, J, K, L, M, N) as Row<'stmt>>::row_result(row, Ok((a, b, c, d, e, f, g, h, i, j, k, l, m, n))) <==> (read_as::<'stmt, A>(cell_at(row, 0), Ok(a)) && read_as::<'stmt, B>(cell_at(row, 1), Ok(b)) && read_as::<'stmt, C>(cell_at(row, 2), Ok(c)) && read_as::<'stmt, D>(cell_at(row, 3), Ok(d)) && read_as::<'stmt, E>(cell_at(row, 4), Ok(e)) && read_as::<'stmt, F>(cell_at(row, 5), Ok(f)) && read_as::<'stmt, G>(cell_at(row, 6), Ok(g)) && read_as::<'stmt, H>(cell_at(row, 7), Ok(h)) && read_as::<'stmt, I>(cell_at(row, 8), Ok(i)) && read_as::<'stmt, J>(cell_at(row, 9), Ok(j)) && read_as::<'stmt, K>(cell_at(row, 10), Ok(k)) && read_as::<'stmt, L>(cell_at(row, 11), Ok(l)) && read_as::<'stmt, M>(cell_at(row, 12), Ok(m)) && read_as::<'stmt, N>(cell_at(row, 13), Ok(n))),
{
}

/// Reading a row as a tuple of 14 succeeds exactly when every column reads
/// alone; otherwise it fails with `MISMATCH` when some column has a type the
/// element does not take, and else with the error of the first column that
/// does not read.
pub proof fn lemma_tuple14_row_fails_at_first<'stmt, A: FromColumn<'stmt>, B: FromColumn<'stmt>, C: FromColumn<'stmt>, D: FromColumn<'stmt>, E: FromColumn<'stmt>, F: FromColumn<'stmt>, G: FromColumn<'stmt>, H: FromColumn<'stmt>, I: FromColumn<'stmt>, J: FromColumn<'stmt>, K: FromColumn<'stmt>, L: FromColumn<'stmt>, M: FromColumn<'stmt>, N: FromColumn<'stmt>>(row: Option<Seq<Cell>>, r: Result<(A, B, C, D, E, F, G, H, I, J, K, L, M, N), Error>)
    requires
        <(A, B, C, D, E, F, G, H, I, J, K, L, M, N) as Row<'stmt>>::row_result(row, r),
    ensures
        r is Ok <==> (readable::<'stmt, A>(cell_at(row, 0)) && readable::<'stmt, B>(cell_at(row, 1)) && readable::<'stmt, C>(cell_at(row, 2)) && readable::<'stmt, D>(cell_at(row, 3)) && readable::<'stmt, E>(cell_at(row, 4)) && readable::<'stmt, F>(cell_at(row, 5)) && readable::<'stmt, G>(cell_at(row, 6)) && readable::<'stmt, H>(cell_at(row, 7)) && readable::<'stmt, I>(cell_at(row, 8)) && readable::<'stmt, J>(cell_at(row, 9)) && readable::<'stmt, K>(cell_at(row, 10)) && readable::<'stmt, L>(cell_at(row, 11)) && readable::<'stmt, M>(cell_at(row, 12)) && readable::<'stmt, N>(cell_at(row, 13))),
        r matches Err(e) ==> if <A::Type as Type>::admits(cell_at(row, 0)) && <B::Type as Type>::admits(cell_at(row, 1)) && <C::Type as Type>::admits(cell_at(row, 2)) && <D::Type as Type>::admits(cell_at(row, 3)) && <E::Type as Type>::admits(cell_at(row, 4)) && <F::Type as Type>::admits(cell_at(row, 5)) && <G::Type as Type>::admits(cell_at(row, 6)) && <H::Type as Type>::admits(cell_at(row, 7)) && <I::Type as Type>::admits(cell_at(row, 8)) && <J::Type as Type>::admits(cell_at(row, 9)) && <K::Type as Type>::admits(cell_at(row, 10)) && <L::Type as Type>::admits(cell_at(row, 11)) && <M::Type as Type>::admits(cell_at(row, 12)) && <N::Type as Type>::admits(cell_at(row, 13)) {
            (read_as::<'stmt, A>(cell_at(row, 0), Err(e)))
                || (readable::<'stmt, A>(cell_at(row, 0)) && read_as::<'stmt, B>(cell_at(row, 1), Err(e)))
                || (readable::<'stmt, A>(cell_at(row, 0)) && readable::<'stmt, B>(cell_at(row, 1)) && read_as::<'stmt, C>(cell_at(row, 2), Err(e)))
                || (readable::<'stmt, A>(cell_at(row, 0)) && readable::<'stmt, B>(cell_at(row, 1)) && readable::<'stmt, C>(cell_at(row, 2)) && read_as::<'stmt, D>(cell_at(row, 3), Err(e)))
                || (readable::<'stmt, A>(cell_at(row, 0)) && readable::<'stmt, B>(cell_at(row, 1)) && readable::<'stmt, C>(cell_at(row, 2)) && readable::<'stmt, D>(cell_at(row, 3)) && read_as::<'stmt, E>(cell_at(row, 4), Err(e)))
                || (readable::<'stmt, A>(cell_at(row, 0)) && readable::<'stmt, B>(cell_at(row, 1)) && readable::<'stmt, C>(cell_at(row, 2)) && readable::<'stmt, D>(cell_at(row, 3)) && readable::<'stmt, E>(cell_at(row, 4)) && read_as::<'stmt, F>(cell_at(row, 5), Err(e)))
                || (readable::<'stmt, A>(cell_at(row, 0)) && readable::<'stmt, B>(cell_at(row, 1)) && readable::<'stmt, C>(cell_at(row, 2)) && readable::<'stmt, D>(cell_at(row, 3)) && readable::<'stmt, E>(cell_at(row, 4)) && readable::<'stmt, F>(cell_at(row, 5)) && read_as::<'stmt, G>(cell_at(row, 6), Err(e)))
                || (readable::<'stmt, A>(cell_at(row, 0)) && readable::<'stmt, B>(cell_at(row, 1)) && readable::<'stmt, C>(cell_at(row, 2)) && readable::<'stmt, D>(cell_at(row, 3)) && readable::<'stmt, E>(cell_at(row, 4)) && readable::<'stmt, F>(cell_at(row, 5)) && readable::<'stmt, G>(cell_at(row, 6)) && read_as::<'stmt, H>(cell_at(row, 7), Err(e)))
                || (readable::<'stmt, A>(cell_at(row, 0)) && readable::<'stmt, B>(cell_at(row, 1)) && readable::<'stmt, C>(cell_at(row, 2)) && readable::<'stmt, D>(cell_at(row, 3)) && readable::<'stmt, E>(cell_at(row, 4)) && readable::<'stmt, F>(cell_at(row, 5)) && readable::<'stmt, G>(cell_at(row, 6)) && readable::<'stmt, H>(cell_at(row, 7)) && read_as::<'stmt, I>(cell_at(row, 8), Err(e)))
                || (readable::<'stmt, A>(cell_at(row, 0)) && readable::<'stmt, B>(cell_at(row, 1)) && readable::<'stmt, C>(cell_at(row, 2)) && readable::<'stmt, D>(cell_at(row, 3)) && readable::<'stmt, E>(cell_at(row, 4)) && readable::<'stmt, F>(cell_at(row, 5)) && readable::<'stmt, G>(cell_at(row, 6)) && readable::<'stmt, H>(cell_at(row, 7)) && readable::<'stmt, I>(cell_at(row, 8)) && read_as::<'stmt, J>(cell_at(row, 9), Err(e)))
                || (readable::<'stmt, A>(cell_at(row, 0)) && readable::<'stmt, B>(cell_at(row, 1)) && readable::<'stmt, C>(cell_at(row, 2)) && readable::<'stmt, D>(cell_at(row, 3)) && readable::<'stmt, E>(cell_at(row, 4)) && readable::<'stmt, F>(cell_at(row, 5)) && readable::<'stmt, G>(cell_at(row, 6)) && readable::<'stmt, H>(cell_at(row, 7)) && readable::<'stmt, I>(cell_at(row, 8)) && readable::<'stmt, J>(cell_at(row, 9)) && read_as::<'stmt, K>(cell_at(row, 10), Err(e)))
                || (readable::<'stmt, A>(cell_at(row, 0)) && readable::<'stmt, B>(cell_at(row, 1)) && readable::<'stmt, C>(cell_at(row, 2)) && readable::<'stmt, D>(cell_at(row, 3)) && readable::<'stmt, E>(cell_at(row, 4)) && readable::<'stmt, F>(cell_at(row, 5)) && readable::<'stmt, G>(cell_at(row, 6)) && readable::<'stmt, H>(cell_at(row, 7)) && readable::<'stmt, I>(cell_at(row, 8)) && readable::<'stmt, J>(cell_at(row, 9)) && readable::<'stmt, K>(cell_at(row, 10)) && read_as::<'stmt, L>(cell_at(row, 11), Err(e)))
                || (readable::<'stmt, A>(cell_at(row, 0)) && readable::<'stmt, B>(cell_at(row, 1)) && readable::<'stmt, C>(cell_at(row, 2)) && readable::<'stmt, D>(cell_at(row, 3)) && readable::<'stmt, E>(cell_at(row, 4)) && readable::<'stmt, F>(cell_at(row, 5)) && readable::<'stmt, G>(cell_at(row, 6)) && readable::<'stmt, H>(cell_at(row, 7)) && readable::<'stmt, I>(cell_at(row, 8)) && readable::<'stmt, J>(cell_at(row, 9)) && readable::<'stmt, K>(cell_at(row, 10)) && readable::<'stmt, L>(cell_at(row, 11)) && read_as::<'stmt, M>(cell_at(row, 12), Err(e)))
                || (readable::<'stmt, A>(cell_at(row, 0)) && readable::<'stmt, B>(cell_at(row, 1)) && readable::<'stmt, C>(cell_at(row, 2)) && readable::<'stmt, D>(cell_at(row, 3)) && readable::<'stmt, E>(cell_at(row, 4)) && readable::<'stmt, F>(cell_at(row, 5)) && readable::<'stmt, G>(cell_at(row, 6)) && readable::<'stmt, H>(cell_at(row, 7)) && readable::<'stmt, I>(cell_at(row, 8)) && readable::<'stmt, J>(cell_at(row, 9)) && readable::<'stmt, K>(cell_at(row, 10)) && readable::<'stmt, L>(cell_at(row, 11)) && readable::<'stmt, M>(cell_at(row, 12)) && read_as::<'stmt, N>(cell_at(row, 13), Err(e)))
        } else {
            e.code_spec() == Code::MISMATCH
        },
{
}

/// Reading a row as a tuple of 15 succeeds with exactly the values that
/// reading each column alone gives, element `k` from column `k`.
pub proof fn lemma_tuple15_row_is_columns<'stmt, A: FromColumn<'stmt>, B: FromColumn<'stmt>, C: FromColumn<'stmt>, D: FromColumn<'stmt>, E: FromColumn<'stmt>, F: FromColumn<'stmt>, G: FromColumn<'stmt>, H: FromColumn<'stmt>, I: FromColumn<'stmt>, J: FromColumn<'stmt>, K: FromColumn<'stmt>, L: FromColumn<'stmt>, M: FromColumn<'stmt>, N: FromColumn<'stmt>, O: FromColumn<'stmt>>(row: Option<Seq<Cell>>, a: A, b: B, c: C, d: D, e: E, f: F, g: G, h: H, i: I, j: J, k: K, l: L, m: M, n: N, o: O)
    ensures
        <(A, B, C, D, E, F, G, H, I, J, K, L, M, N, O) as Row<'stmt>>::row_result(row, Ok((a, b, c, d, e, f, g, h, i, j, k, l, m, n, o))) <==> (read_as::<'stmt, A>(cell_at(row, 0), Ok(a)) && read_as::<'stmt, B>(cell_at(row, 1), Ok(b)) && read_as::<'stmt, C>(cell_at(row, 2), Ok(c)) && read_as::<'stmt, D>(cell_at(row, 3), Ok(d)) && read_as::<'stmt, E>(cell_at(row, 4), Ok(e)) && read_as::<'stmt, F>(cell_at(row, 5), Ok(f)) && read_as::<'stmt, G>(cell_at(row, 6), Ok(g)) && read_as::<'stmt, H>(cell_at(row, 7), Ok(h)) && read_as::<'stmt, I>(cell_at(row, 8), Ok(i)) && read_as::<'stmt, J>(cell_at(row, 9), Ok(j)) && read_as::<'stmt, K>(cell_at(row, 10), Ok(k)) && read_as::<'stmt, L>(cell_at(row, 11), Ok(l)) && read_as::<'stmt, M>(cell_at(row, 12), Ok(m)) && read_as::<'stmt, N>(cell_at(row, 13), Ok(n)) && read_as::<'stmt, O>(cell_at(row, 14), Ok(o))),
{
}

/// Reading a row as a tuple of 15 succeeds exactly when every column reads
/// alone; otherwise it fails with `MISMATCH` when some column has a type the
/// element does not take, and else with the error of the first column that
/// does not read.
pub proof fn lemma_tuple15_row_fails_at_first<'stmt, A: FromColumn<'stmt>, B: FromColumn<'stmt>, C: FromColumn<'stmt>, D: FromColumn<'stmt>, E: FromColumn<'stmt>, F: FromColumn<'stmt>, G: FromColumn<'stmt>, H: FromColumn<'stmt>, I: FromColumn<'stmt>, J: FromColumn<'stmt>, K: FromColumn<'stmt>, L: FromColumn<'stmt>, M: FromColumn<'stmt>, N: FromColumn<'stmt>, O: FromColumn<'stmt>>(row: Option<Seq<Cell>>, r: Result<(A, B, C, D, E, F, G, H, I, J, K, L, M, N, O), Error>)
    requires
        <(A, B, C, D, E, F, G, H, I, J, K, L, M, N, O) as Row<'stmt>>::row_result(row, r),
    ensures
        r is Ok <==> (readable::<'stmt, A>(cell_at(row, 0)) && readable::<'stmt, B>(cell_at(row, 1)) && readable::<'stmt, C>(cell_at(row, 2)) && readable::<'stmt, D>(cell_at(row, 3)) && readable::<'stmt, E>(cell_at(row, 4)) && readable::<'stmt, F>(cell_at(row, 5)) && readable::<'stmt, G>(cell_at(row, 6)) && readable::<'stmt, H>(cell_at(row, 7)) && readable::<'stmt, I>(cell_at(row, 8)) && readable::<'stmt, J>(cell_at(row, 9)) && readable::<'stmt, K>(cell_at(row, 10)) && readable::<'stmt, L>(cell_at(row, 11)) && readable::<'stmt, M>(cell_at(row, 12)) && readable::<'stmt, N>(cell_at(row, 13)) && readable::<'stmt, O>(cell_at(row, 14))),
        r matches Err(e) ==> if <A::Type as Type>::admits(cell_at(row, 0)) && <B::Type as Type>::admits(cell_at(row, 1)) && <C::Type as Type>::admits(cell_at(row, 2)) && <D::Type as Type>::admits(cell_at(row, 3)) && <E::Type as Type>::admits(cell_at(row, 4)) && <F::Type as Type>::admits(cell_at(row, 5)) && <G::Type as Type>::admits(cell_at(row, 6)) && <H::Type as Type>::admits(cell_at(row, 7)) && <I::Type as Type>::admits(cell_at(row, 8)) && <J::Type as Type>::admits(cell_at(row, 9)) && <K::Type as Type>::admits(cell_at(row, 10)) && <L::Type as Type>::admits(cell_at(row, 11)) && <M::Type as Type>::admits(cell_at(row, 12)) && <N::Type as Type>::admits(cell_at(row, 13)) && <O::Type as Type>::admits(cell_at(row, 14)) {
            (read_as::<'stmt, A>(cell_at(row, 0), Err(e)))
                || (readable::<'stmt, A>(cell_at(row, 0)) && read_as::<'stmt, B>(cell_at(row, 1), Err(e)))
                || (readable::<'stmt, A>(cell_at(row, 0)) && readable::<'stmt, B>(cell_at(row, 1)) && read_as::<'stmt, C>(cell_at(row, 2), Err(e)))
                || (readable::<'stmt, A>(cell_at(row, 0)) && readable::<'stmt, B>(cell_at(row, 1)) && readable::<'stmt, C>(cell_at(row, 2)) && read_as::<'stmt, D>(cell_at(row, 3), Err(e)))
                || (readable::<'stmt, A>(cell_at(row, 0)) && readable::<'stmt, B>(cell_at(row, 1)) && readable::<'stmt, C>(cell_at(row, 2)) && readable::<'stmt, D>(cell_at(row, 3)) && read_as::<'stmt, E>(cell_at(row, 4), Err(e)))
                || (readable::<'stmt, A>(cell_at(row, 0)) && readable::<'stmt, B>(cell_at(row, 1)) && readable::<'stmt, C>(cell_at(row, 2)) && readable::<'stmt, D>(cell_at(row, 3)) && readable::<'stmt, E>(cell_at(row, 4)) && read_as::<'stmt, F>(cell_at(row, 5), Err(e)))
                || (readable::<'stmt, A>(cell_at(row, 0)) && readable::<'stmt, B>(cell_at(row, 1)) && readable::<'stmt, C>(cell_at(row, 2)) && readable::<'stmt, D>(cell_at(row, 3)) && readable::<'stmt, E>(cell_at(row, 4)) && readable::<'stmt, F>(cell_at(row, 5)) && read_as::<'stmt, G>(cell_at(row, 6), Err(e)))
                || (readable::<'stmt, A>(cell_at(row, 0)) && readable::<'stmt, B>(cell_at(row, 1)) && readable::<'stmt, C>(cell_at(row, 2)) && readable::<'stmt, D>(cell_at(row, 3)) && readable::<'stmt, E>(cell_at(row, 4)) && readable::<'stmt, F>(cell_at(row, 5)) && readable::<'stmt, G>(cell_at(row, 6)) && read_as::<'stmt, H>(cell_at(row, 7), Err(e)))
                || (readable::<'stmt, A>(cell_at(row, 0)) && readable::<'stmt, B>(cell_at(row, 1)) && readable::<'stmt, C>(cell_at(row, 2)) && readable::<'stmt, D>(cell_at(row, 3)) && readable::<'stmt, E>(cell_at(row, 4)) && readable::<'stmt, F>(cell_at(row, 5)) && readable::<'stmt, G>(cell_at(row, 6)) && readable::<'stmt, H>(cell_at(row, 7)) && read_as::<'stmt, I>(cell_at(row, 8), Err(e)))
                || (readable::<'stmt, A>(cell_at(row, 0)) && readable::<'stmt, B>(cell_at(row, 1)) && readable::<'stmt, C>(cell_at(row, 2)) && readable::<'stmt, D>(cell_at(row, 3)) && readable::<'stmt, E>(cell_at(row, 4)) && readable::<'stmt, F>(cell_at(row, 5)) && readable::<'stmt, G>(cell_at(row, 6)) && readable::<'stmt, H>(cell_at(row, 7)) && readable::<'stmt, I>(cell_at(row, 8)) && read_as::<'stmt, J>(cell_at(row, 9), Err(e)))
                || (readable::<'stmt, A>(cell_at(row, 0)) && readable::<'stmt, B>(cell_at(row, 1)) && readable::<'stmt, C>(cell_at(row, 2)) && readable::<'stmt, D>(cell_at(row, 3)) && readable::<'stmt, E>(cell_at(row, 4)) && readable::<'stmt, F>(cell_at(row, 5)) && readable::<'stmt, G>(cell_at(row, 6)) && readable::<'stmt, H>(cell_at(row, 7)) && readable::<'stmt, I>(cell_at(row, 8)) && readable::<'stmt, J>(cell_at(row, 9)) && read_as::<'stmt, K>(cell_at(row, 10), Err(e)))
                || (readable::<'stmt, A>(cell_at(row, 0)) && readable::<'stmt, B>(cell_at(row, 1)) && readable::<'stmt, C>(cell_at(row, 2)) && readable::<'stmt, D>(cell_at(row, 3)) && readable::<'stmt, E>(cell_at(row, 4)) && readable::<'stmt, F>(cell_at(row, 5)) && readable::<'stmt, G>(cell_at(row, 6)) && readable::<'stmt, H>(cell_at(row, 7)) && readable::<'stmt, I>(cell_at(row, 8)) && readable::<'stmt, J>(cell_at(row, 9)) && readable::<'stmt, K>(cell_at(row, 10)) && read_as::<'stmt, L>(cell_at(row, 11), Err(e)))
                || (readable::<'stmt, A>(cell_at(row, 0)) && readable::<'stmt, B>(cell_at(row, 1)) && readable::<'stmt, C>(cell_at(row, 2)) && readable::<'stmt, D>(cell_at(row, 3)) && readable::<'stmt, E>(cell_at(row, 4)) && readable::<'stmt, F>(cell_at(row, 5)) && readable::<'stmt, G>(cell_at(row, 6)) && readable::<'stmt, H>(cell_at(row, 7)) && readable::<'stmt, I>(cell_at(row, 8)) && readable::<'stmt, J>(cell_at(row, 9)) && readable::<'stmt, K>(cell_at(row, 10)) && readable::<'stmt, L>(cell_at(row, 11)) && read_as::<'stmt, M>(cell_at(row, 12), Err(e)))
                || (readable::<'stmt, A>(cell_at(row, 0)) && readable::<'stmt, B>(cell_at(row, 1)) && readable::<'stmt, C>(cell_at(row, 2)) && readable::<'stmt, D>(cell_at(row, 3)) && readable::<'stmt, E>(cell_at(row, 4)) && readable::<'stmt, F>(cell_at(row, 5)) && readable::<'stmt, G>(cell_at(row, 6)) && readable::<'stmt, H>(cell_at(row, 7)) && readable::<'stmt, I>(cell_at(row, 8)) && readable::<'stmt, J>(cell_at(row, 9)) && readable::<'stmt, K>(cell_at(row, 10)) && readable::<'stmt, L>(cell_at(row, 11)) && readable::<'stmt, M>(cell_at(row, 12)) && read_as::<'stmt, N>(cell_at(row, 13), Err(e)))
                || (readable::<'stmt, A>(cell_at(row, 0)) && readable::<'stmt, B>(cell_at(row, 1)) && readable::<'stmt, C>(cell_at(row, 2)) && readable::<'stmt, D>(cell_at(row, 3)) && readable::<'stmt, E>(cell_at(row, 4)) && readable::<'stmt, F>(cell_at(row, 5)) && readable::<'stmt, G>(cell_at(row, 6)) && readable::<'stmt, H>(cell_at(row, 7)) && readable::<'stmt, I>(cell_at(row, 8)) && readable::<'stmt, J>(cell_at(row, 9)) && readable::<'stmt, K>(cell_at(row, 10)) && readable::<'stmt, L>(cell_at(row, 11)) && readable::<'stmt, M>(cell_at(row, 12)) && readable::<'stmt, N>(cell_at(row, 13)) && read_as::<'stmt, O>(cell_at(row, 14), Err(e)))
        } else {
            e.code_spec() == Code::MISMATCH
        },
{
}

/// Binding a tuple of 1 whose elements are all accepted sets parameter
/// `k + 1` to element `k` and keeps every other parameter; when an element
/// is refused, the tuple binds nothing.
pub proof fn lemma_tuple1_binds_in_order<A: BindValue>(v: (A,), before: Map<i32, Cell>)
    ensures
        (v.0.bound_cell() is Some) ==> (v.bind_spec(before) matches Some(after) && after.contains_key(1) && after[1] == v.0.bound_cell()->Some_0
            && forall|k: i32| !(1 <= k <= 1) ==> (after.contains_key(k) == before.contains_key(k) && (
            before.contains_key(k) ==> #[trigger] after[k] == before[k]))),
        !(v.0.bound_cell() is Some) ==> v.bind_spec(before) is None,
{
}

/// Binding a tuple of 2 whose elements are all accepted sets parameter
/// `k + 1` to element `k` and keeps every other parameter; when an element
/// is refused, the tuple binds nothing.
pub proof fn lemma_tuple2_binds_in_order<A: BindValue, B: BindValue>(v: (A, B), before: Map<i32, Cell>)
    ensures
        (v.0.bound_cell() is Some && v.1.bound_cell() is Some) ==> (v.bind_spec(before) matches Some(after) && after.contains_key(1) && after[1] == v.0.bound_cell()->Some_0 && after.contains_key(2) && after[2] == v.1.bound_cell()->Some_0
            && forall|k: i32| !(1 <= k <= 2) ==> (after.contains_key(k) == before.contains_key(k) && (
            before.contains_key(k) ==> #[trigger] after[k] == before[k]))),
        !(v.0.bound_cell() is Some && v.1.bound_cell() is Some) ==> v.bind_spec(before) is None,
{
}

/// Binding a tuple of 3 whose elements are all accepted sets parameter
/// `k + 1` to element `k` and keeps every other parameter; when an element
/// is refused, the tuple binds nothing.
pub proof fn lemma_tuple3_binds_in_order<A: BindValue, B: BindValue, C: BindValue>(v: (A, B, C), before: Map<i32, Cell>)
    ensures
        (v.0.bound_cell() is Some && v.1.bound_cell() is Some && v.2.bound_cell() is Some) ==> (v.bind_spec(before) matches Some(after) && after.contains_key(1) && after[1] == v.0.bound_cell()->Some_0 && after.contains_key(2) && after[2] == v.1.bound_cell()->Some_0 && after.contains_key(3) && after[3] == v.2.bound_cell()->Some_0
            && forall|k: i32| !(1 <= k <= 3) ==> (after.contains_key(k) == before.contains_key(k) && (
            before.contains_key(k) ==> #[trigger] after[k] == before[k]))),
        !(v.0.bound_cell() is Some && v.1.bound_cell() is Some && v.2.bound_cell() is Some) ==> v.bind_spec(before) is None,
{
}

/// Binding a tuple of 4 whose elements are all accepted sets parameter
/// `k + 1` to element `k` and keeps every other parameter; when an element
/// is refused, the tuple binds nothing.
pub proof fn lemma_tuple4_binds_in_order<A: BindValue, B: BindValue, C: BindValue, D: BindValue>(v: (A, B, C, D), before: Map<i32, Cell>)
    ensures
        (v.0.bound_cell() is Some && v.1.bound_cell() is Some && v.2.bound_cell() is Some && v.3.bound_cell() is Some) ==> (v.bind_spec(before) matches Some(after) && after.contains_key(1) && after[1] == v.0.bound_cell()->Some_0 && after.contains_key(2) && after[2] == v.1.bound_cell()->Some_0 && after.contains_key(3) && after[3] == v.2.bound_cell()->Some_0 && after.contains_key(4) && after[4] == v.3.bound_cell()->Some_0
            && forall|k: i32| !(1 <= k <= 4) ==> (after.contains_key(k) == before.contains_key(k) && (
            before.contains_key(k) ==> #[trigger] after[k] == before[k]))),
        !(v.0.bound_cell() is Some && v.1.bound_cell() is Some && v.2.bound_cell() is Some && v.3.bound_cell() is Some) ==> v.bind_spec(before) is None,
{
}

/// Binding a tuple of 5 whose elements are all accepted sets parameter
/// `k + 1` to element `k` and keeps every other parameter; when an element
/// is refused, the tuple binds nothing.
pub proof fn lemma_tuple5_binds_in_order<A: BindValue, B: BindValue, C: BindValue, D: BindValue, E: BindValue>(v: (A, B, C, D, E), before: Map<i32, Cell>)
    ensures
        (v.0.bound_cell() is Some && v.1.bound_cell() is Some && v.2.bound_cell() is Some && v.3.bound_cell() is Some && v.4.bound_cell() is Some) ==> (v.bind_spec(before) matches Some(after) && after.contains_key(1) && after[1] == v.0.bound_cell()->Some_0 && after.contains_key(2) && after[2] == v.1.bound_cell()->Some_0 && after.contains_key(3) && after[3] == v.2.bound_cell()->Some_0 && after.contains_key(4) && after[4] == v.3.bound_cell()->Some_0 && after.contains_key(5) && after[5] == v.4.bound_cell()->Some_0
            && forall|k: i32| !(1 <= k <= 5) ==> (after.contains_key(k) == before.contains_key(k) && (
            before.contains_key(k) ==> #[trigger] after[k] == before[k]))),
        !(v.0.bound_cell() is Some && v.1.bound_cell() is Some && v.2.bound_cell() is Some && v.3.bound_cell() is Some && v.4.bound_cell() is Some) ==> v.bind_spec(before) is None,
{
}

/// Binding a tuple of 6 whose elements are all accepted sets parameter
/// `k + 1` to element `k` and keeps every other parameter; when an element
/// is refused, the tuple binds nothing.
pub proof fn lemma_tuple6_binds_in_order<A: BindValue, B: BindValue, C: BindValue, D: BindValue, E: BindValue, F: BindValue>(v: (A, B, C, D, E, F), before: Map<i32, Cell>)
    ensures
        (v.0.bound_cell() is Some && v.1.bound_cell() is Some && v.2.bound_cell() is Some && v.3.bound_cell() is Some && v.4.bound_cell() is Some && v.5.bound_cell() is Some) ==> (v.bind_spec(before) matches Some(after) && after.contains_key(1) && after[1] == v.0.bound_cell()->Some_0 && after.contains_key(2) && after[2] == v.1.bound_cell()->Some_0 && after.contains_key(3) && after[3] == v.2.bound_cell()->Some_0 && after.contains_key(4) && after[4] == v.3.bound_cell()->Some_0 && after.contains_key(5) && after[5] == v.4.bound_cell()->Some_0 && after.contains_key(6) && after[6] == v.5.bound_cell()->Some_0
            && forall|k: i32| !(1 <= k <= 6) ==> (after.contains_key(k) == before.contains_key(k) && (
            before.contains_key(k) ==> #[trigger] after[k] == before[k]))),
        !(v.0.bound_cell() is Some && v.1.bound_cell() is Some && v.2.bound_cell() is Some && v.3.bound_cell() is Some && v.4.bound_cell() is Some && v.5.bound_cell() is Some) ==> v.bind_spec(before) is None,
{
}

/// Binding a tuple of 7 whose elements are all accepted sets parameter
/// `k + 1` to element `k` and keeps every other parameter; when an element
/// is refused, the tuple binds nothing.
pub proof fn lemma_tuple7_binds_in_order<A: BindValue, B: BindValue, C: BindValue, D: BindValue, E: BindValue, F: BindValue, G: BindValue>(v: (A, B, C, D, E, F, G), before: Map<i32, Cell>)
    ensures
        (v.0.bound_cell() is Some && v.1.bound_cell() is Some && v.2.bound_cell() is Some && v.3.bound_cell() is Some && v.4.bound_cell() is Some && v.5.bound_cell() is Some && v.6.bound_cell() is Some) ==> (v.bind_spec(before) matches Some(after) && after.contains_key(1) && after[1] == v.0.bound_cell()->Some_0 && after.contains_key(2) && after[2] == v.1.bound_cell()->Some_0 && after.contains_key(3) && after[3] == v.2.bound_cell()->Some_0 && after.contains_key(4) && after[4] == v.3.bound_cell()->Some_0 && after.contains_key(5) && after[5] == v.4.bound_cell()->Some_0 && after.contains_key(6) && after[6] == v.5.bound_cell()->Some_0 && after.contains_key(7) && after[7] == v.6.bound_cell()->Some_0
            && forall|k: i32| !(1 <= k <= 7) ==> (after.contains_key(k) == before.contains_key(k) && (
            before.contains_key(k) ==> #[trigger] after[k] == before[k]))),
        !(v.0.bound_cell() is Some && v.1.bound_cell() is Some && v.2.bound_cell() is Some && v.3.bound_cell() is Some && v.4.bound_cell() is Some && v.5.bound_cell() is Some && v.6.bound_cell() is Some) ==> v.bind_spec(before) is None,
{
}

/// Binding a tuple of 8 whose elements are all accepted sets parameter
/// `k + 1` to element `k` and keeps every other parameter; when an element
/// is refused, the tuple binds nothing.
pub proof fn lemma_tuple8_binds_in_order<A: BindValue, B: BindValue, C: BindValue, D: BindValue, E: BindValue, F: BindValue, G: BindValue, H: BindValue>(v: (A, B, C, D, E, F, G, H), before: Map<i32, Cell>)
    ensures
        (v.0.bound_cell() is Some && v.1.bound_cell() is Some && v.2.bound_cell() is Some && v.3.bound_cell() is Some && v.4.bound_cell() is Some && v.5.bound_cell() is Some && v.6.bound_cell() is Some && v.7.bound_cell() is Some) ==> (v.bind_spec(before) matches Some(after) && after.contains_key(1) && after[1] == v.0.bound_cell()->Some_0 && after.contains_key(2) && after[2] == v.1.bound_cell()->Some_0 && after.contains_key(3) && after[3] == v.2.bound_cell()->Some_0 && after.contains_key(4) && after[4] == v.3.bound_cell()->Some_0 && after.contains_key(5) && after[5] == v.4.bound_cell()->Some_0 && after.contains_key(6) && after[6] == v.5.bound_cell()->Some_0 && after.contains_key(7) && after[7] == v.6.bound_cell()->Some_0 && after.contains_key(8) && after[8] == v.7.bound_cell()->Some_0
            && forall|k: i32| !(1 <= k <= 8) ==> (after.contains_key(k) == before.contains_key(k) && (
            before.contains_key(k) ==> #[trigger] after[k] == before[k]))),
        !(v.0.bound_cell() is Some && v.1.bound_cell() is Some && v.2.bound_cell() is Some && v.3.bound_cell() is Some && v.4.bound_cell() is Some && v.5.bound_cell() is Some && v.6.bound_cell() is Some && v.7.bound_cell() is Some) ==> v.bind_spec(before) is None,
{
}

/// Binding a tuple of 9 whose elements are all accepted sets parameter
/// `k + 1` to element `k` and keeps every other parameter; when an element
/// is refused, the tuple binds nothing.
pub proof fn lemma_tuple9_binds_in_order<A: BindValue, B: BindValue, C: BindValue, D: BindValue, E: BindValue, F: BindValue, G: BindValue, H: BindValue, I: BindValue>(v: (A, B, C, D, E, F, G, H, I), before: Map<i32, Cell>)
    ensures
        (v.0.bound_cell() is Some && v.1.bound_cell() is Some && v.2.bound_cell() is Some && v.3.bound_cell() is Some && v.4.bound_cell() is Some && v.5.bound_cell() is Some && v.6.bound_cell() is Some && v.7.bound_cell() is Some && v.8.bound_cell() is Some) ==> (v.bind_spec(before) matches Some(after) && after.contains_key(1) && after[1] == v.0.bound_cell()->Some_0 && after.contains_key(2) && after[2] == v.1.bound_cell()->Some_0 && after.contains_key(3) && after[3] == v.2.bound_cell()->Some_0 && after.contains_key(4) && after[4] == v.3.bound_cell()->Some_0 && after.contains_key(5) && after[5] == v.4.bound_cell()->Some_0 && after.contains_key(6) && after[6] == v.5.bound_cell()->Some_0 && after.contains_key(7) && after[7] == v.6.bound_cell()->Some_0 && after.contains_key(8) && after[8] == v.7.bound_cell()->Some_0 && after.contains_key(9) && after[9] == v.8.bound_cell()->Some_0
            && forall|k: i32| !(1 <= k <= 9) ==> (after.contains_key(k) == before.contains_key(k) && (
            before.contains_key(k) ==> #[trigger] after[k] == before[k]))),
        !(v.0.bound_cell() is Some && v.1.bound_cell() is Some && v.2.bound_cell() is Some && v.3.bound_cell() is Some && v.4.bound_cell() is Some && v.5.bound_cell() is Some && v.6.bound_cell() is Some && v.7.bound_cell() is Some && v.8.bound_cell() is Some) ==> v.bind_spec(before) is None,
{
}

/// Binding a tuple of 10 whose elements are all accepted sets parameter
/// `k + 1` to element `k` and keeps every other parameter; when an element
/// is refused, the tuple binds nothing.
pub proof fn lemma_tuple10_binds_in_order<A: BindValue, B: BindValue, C: BindValue, D: BindValue, E: BindValue, F: BindValue, G: BindValue, H: BindValue, I: BindValue, J: BindValue>(v: (A, B, C, D, E, F, G, H, I, J), before: Map<i32, Cell>)
    ensures
        (v.0.bound_cell() is Some && v.1.bound_cell() is Some && v.2.bound_cell() is Some && v.3.bound_cell() is Some && v.4.bound_cell() is Some && v.5.bound_cell() is Some && v.6.bound_cell() is Some && v.7.bound_cell() is Some && v.8.bound_cell() is Some && v.9.bound_cell() is Some) ==> (v.bind_spec(before) matches Some(after) && after.contains_key(1) && after[1] == v.0.bound_cell()->Some_0 && after.contains_key(2) && after[2] == v.1.bound_cell()->Some_0 && after.contains_key(3) && after[3] == v.2.bound_cell()->Some_0 && after.contains_key(4) && after[4] == v.3.bound_cell()->Some_0 && after.contains_key(5) && after[5] == v.4.bound_cell()->Some_0 && after.contains_key(6) && after[6] == v.5.bound_cell()->Some_0 && after.contains_key(7) && after[7] == v.6.bound_cell()->Some_0 && after.contains_key(8) && after[8] == v.7.bound_cell()->Some_0 && after.contains_key(9) && after[9] == v.8.bound_cell()->Some_0 && after.contains_key(10) && after[10] == v.9.bound_cell()->Some_0
            && forall|k: i32| !(1 <= k <= 10) ==> (after.contains_key(k) == before.contains_key(k) && (
            before.contains_key(k) ==> #[trigger] after[k] == before[k]))),
        !(v.0.bound_cell() is Some && v.1.bound_cell() is Some && v.2.bound_cell() is Some && v.3.bound_cell() is Some && v.4.bound_cell() is Some && v.5.bound_cell() is Some && v.6.bound_cell() is Some && v.7.bound_cell() is Some && v.8.bound_cell() is Some && v.9.bound_cell() is Some) ==> v.bind_spec(before) is None,
{
}

/// Binding a tuple of 11 whose elements are all accepted sets parameter
/// `k + 1` to element `k` and keeps every other parameter; when an element
/// is refused, the tuple binds nothing.
pub proof fn lemma_tuple11_binds_in_order<A: BindValue, B: BindValue, C: BindValue, D: BindValue, E: BindValue, F: BindValue, G: BindValue, H: BindValue, I: BindValue, J: BindValue, K: BindValue>(v: (A, B, C, D, E, F, G, H, I, J, K), before: Map<i32, Cell>)
    ensures
        (v.0.bound_cell() is Some && v.1.bound_cell() is Some && v.2.bound_cell() is Some && v.3.bound_cell() is Some && v.4.bound_cell() is Some && v.5.bound_cell() is Some && v.6.bound_cell() is Some && v.7.bound_cell() is Some && v.8.bound_cell() is Some && v.9.bound_cell() is Some && v.10.bound_cell() is Some) ==> (v.bind_spec(before) matches Some(after) && after.contains_key(1) && after[1] == v.0.bound_cell()->Some_0 && after.contains_key(2) && after[2] == v.1.bound_cell()->Some_0 && after.contains_key(3) && after[3] == v.2.bound_cell()->Some_0 && after.contains_key(4) && after[4] == v.3.bound_cell()->Some_0 && after.contains_key(5) && after[5] == v.4.bound_cell()->Some_0 && after.contains_key(6) && after[6] == v.5.bound_cell()->Some_0 && after.contains_key(7) && after[7] == v.6.bound_cell()->Some_0 && after.contains_key(8) && after[8] == v.7.bound_cell()->Some_0 && after.contains_key(9) && after[9] == v.8.bound_cell()->Some_0 && after.contains_key(10) && after[10] == v.9.bound_cell()->Some_0 && after.contains_key(11) && after[11] == v.10.bound_cell()->Some_0
            && forall|k: i32| !(1 <= k <= 11) ==> (after.contains_key(k) == before.contains_key(k) && (
            before.contains_key(k) ==> #[trigger] after[k] == before[k]))),
        !(v.0.bound_cell() is Some && v.1.bound_cell() is Some && v.2.bound_cell() is Some && v.3.bound_cell() is Some && v.4.bound_cell() is Some && v.5.bound_cell() is Some && v.6.bound_cell() is Some && v.7.bound_cell() is Some && v.8.bound_cell() is Some && v.9.bound_cell() is Some && v.10.bound_cell() is Some) ==> v.bind_spec(before) is None,
{
}

/// Binding a tuple of 12 whose elements are all accepted sets parameter
/// `k + 1` to element `k` and keeps every other parameter; when an element
/// is refused, the tuple binds nothing.
pub proof fn lemma_tuple12_binds_in_order<A: BindValue, B: BindValue, C: BindValue, D: BindValue, E: BindValue, F: BindValue, G: BindValue, H: BindValue, I: BindValue, J: BindValue, K: BindValue, L: BindValue>(v: (A, B, C, D, E, F, G, H, I, J, K, L), before: Map<i32, Cell>)
    ensures
        (v.0.bound_cell() is Some && v.1.bound_cell() is Some && v.2.bound_cell() is Some && v.3.bound_cell() is Some && v.4.bound_cell() is Some && v.5.bound_cell() is Some && v.6.bound_cell() is Some && v.7.bound_cell() is Some && v.8.bound_cell() is Some && v.9.bound_cell() is Some && v.10.bound_cell() is Some && v.11.bound_cell() is Some) ==> (v.bind_spec(before) matches Some(after) && after.contains_key(1) && after[1] == v.0.bound_cell()->Some_0 && after.contains_key(2) && after[2] == v.1.bound_cell()->Some_0 && after.contains_key(3) && after[3] == v.2.bound_cell()->Some_0 && after.contains_key(4) && after[4] == v.3.bound_cell()->Some_0 && after.contains_key(5) && after[5] == v.4.bound_cell()->Some_0 && after.contains_key(6) && after[6] == v.5.bound_cell()->Some_0 && after.contains_key(7) && after[7] == v.6.bound_cell()->Some_0 && after.contains_key(8) && after[8] == v.7.bound_cell()->Some_0 && after.contains_key(9) && after[9] == v.8.bound_cell()->Some_0 && after.contains_key(10) && after[10] == v.9.bound_cell()->Some_0 && after.contains_key(11) && after[11] == v.10.bound_cell()->Some_0 && after.contains_key(12) && after[12] == v.11.bound_cell()->Some_0
            && forall|k: i32| !(1 <= k <= 12) ==> (after.contains_key(k) == before.contains_key(k) && (
            before.contains_key(k) ==> #[trigger] after[k] == before[k]))),
        !(v.0.bound_cell() is Some && v.1.bound_cell() is Some && v.2.bound_cell() is Some && v.3.bound_cell() is Some && v.4.bound_cell() is Some && v.5.bound_cell() is Some && v.6.bound_cell() is Some && v.7.bound_cell() is Some && v.8.bound_cell() is Some && v.9.bound_cell() is Some && v.10.bound_cell() is Some && v.11.bound_cell() is Some) ==> v.bind_spec(before) is None,
{
}

/// Binding a tuple of 13 whose elements are all accepted sets parameter
/// `k + 1` to element `k` and keeps every other parameter; when an element
/// is refused, the tuple binds nothing.
pub proof fn lemma_tuple13_binds_in_order<A: BindValue, B: BindValue, C: BindValue, D: BindValue, E: BindValue, F: BindValue, G: BindValue, H: BindValue, I: BindValue, J: BindValue, K: BindValue, L: BindValue, M: BindValue>(v: (A, B, C, D, E, F, G, H, I, J, K, L, M), before: Map<i32, Cell>)
    ensures
        (v.0.bound_cell() is Some && v.1.bound_cell() is Some && v.2.bound_cell() is Some && v.3.bound_cell() is Some && v.4.bound_cell() is Some && v.5.bound_cell() is Some && v.6.bound_cell() is Some && v.7.bound_cell() is Some && v.8.bound_cell() is Some && v.9.bound_cell() is Some && v.10.bound_cell() is Some && v.11.bound_cell() is Some && v.12.bound_cell() is Some) ==> (v.bind_spec(before) matches Some(after) && after.contains_key(1) && after[1] == v.0.bound_cell()->Some_0 && after.contains_key(2) && after[2] == v.1.bound_cell()->Some_0 && after.contains_key(3) && after[3] == v.2.bound_cell()->Some_0 && after.contains_key(4) && after[4] == v.3.bound_cell()->Some_0 && after.contains_key(5) && after[5] == v.4.bound_cell()->Some_0 && after.contains_key(6) && after[6] == v.5.bound_cell()->Some_0 && after.contains_key(7) && after[7] == v.6.bound_cell()->Some_0 && after.contains_key(8) && after[8] == v.7.bound_cell()->Some_0 && after.contains_key(9) && after[9] == v.8.bound_cell()->Some_0 && after.contains_key(10) && after[10] == v.9.bound_cell()->Some_0 && after.contains_key(11) && after[11] == v.10.bound_cell()->Some_0 && after.contains_key(12) && after[12] == v.11.bound_cell()->Some_0 && after.contains_key(13) && after[13] == v.12.bound_cell()->Some_0
            && forall|k: i32| !(1 <= k <= 13) ==> (after.contains_key(k) == before.contains_key(k) && (
            before.contains_key(k) ==> #[trigger] after[k] == before[k]))),
        !(v.0.bound_cell() is Some && v.1.bound_cell() is Some && v.2.bound_cell() is Some && v.3.bound_cell() is Some && v.4.bound_cell() is Some && v.5.bound_cell() is Some && v.6.bound_cell() is Some && v.7.bound_cell() is Some && v.8.bound_cell() is Some && v.9.bound_cell() is Some && v.10.bound_cell() is Some && v.11.bound_cell() is Some && v.12.bound_cell() is Some) ==> v.bind_spec(before) is None,
{
}

/// Binding a tuple of 14 whose elements are all accepted sets parameter
/// `k + 1` to element `k` and keeps every other parameter; when an element
/// is refused, the tuple binds nothing.
pub proof fn lemma_tuple14_binds_in_order<A: BindValue, B: BindValue, C: BindValue, D: BindValue, E: BindValue, F: BindValue, G: BindValue, H: BindValue, I: BindValue, J: BindValue, K: BindValue, L: BindValue, M: BindValue, N: BindValue>(v: (A, B, C, D, E, F, G, H, I, J, K, L, M, N), before: Map<i32, Cell>)
    ensures
        (v.0.bound_cell() is Some && v.1.bound_cell() is Some && v.2.bound_cell() is Some && v.3.bound_cell() is Some && v.4.bound_cell() is Some && v.5.bound_cell() is Some && v.6.bound_cell() is Some && v.7.bound_cell() is Some && v.8.bound_cell() is Some && v.9.bound_cell() is Some && v.10.bound_cell() is Some && v.11.bound_cell() is Some && v.12.bound_cell() is Some && v.13.bound_cell() is Some) ==> (v.bind_spec(before) matches Some(after) && after.contains_key(1) && after[1] == v.0.bound_cell()->Some_0 && after.contains_key(2) && after[2] == v.1.bound_cell()->Some_0 && after.contains_key(3) && after[3] == v.2.bound_cell()->Some_0 && after.contains_key(4) && after[4] == v.3.bound_cell()->Some_0 && after.contains_key(5) && after[5] == v.4.bound_cell()->Some_0 && after.contains_key(6) && after[6] == v.5.bound_cell()->Some_0 && after.contains_key(7) && after[7] == v.6.bound_cell()->Some_0 && after.contains_key(8) && after[8] == v.7.bound_cell()->Some_0 && after.contains_key(9) && after[9] == v.8.bound_cell()->Some_0 && after.contains_key(10) && after[10] == v.9.bound_cell()->Some_0 && after.contains_key(11) && after[11] == v.10.bound_cell()->Some_0 && after.contains_key(12) && after[12] == v.11.bound_cell()->Some_0 && after.contains_key(13) && after[13] == v.12.bound_cell()->Some_0 && after.contains_key(14) && after[14] == v.13.bound_cell()->Some_0
            && forall|k: i32| !(1 <= k <= 14) ==> (after.contains_key(k) == before.contains_key(k) && (
            before.contains_key(k) ==> #[trigger] after[k] == before[k]))),
        !(v.0.bound_cell() is Some && v.1.bound_cell() is Some && v.2.bound_cell() is Some && v.3.bound_cell() is Some && v.4.bound_cell() is Some && v.5.bound_cell() is Some && v.6.bound_cell() is Some && v.7.bound_cell() is Some && v.8.bound_cell() is Some && v.9.bound_cell() is Some && v.10.bound_cell() is Some && v.11.bound_cell() is Some && v.12.bound_cell() is Some && v.13.bound_cell() is Some) ==> v.bind_spec(before) is None,
{
}

/// Binding a tuple of 15 whose elements are all accepted sets parameter
/// `k + 1` to element `k` and keeps every other parameter; when an element
/// is refused, the tuple binds nothing.
pub proof fn lemma_tuple15_binds_in_order<A: BindValue, B: BindValue, C: BindValue, D: BindValue, E: BindValue, F: BindValue, G: BindValue, H: BindValue, I: BindValue, J: BindValue, K: BindValue, L: BindValue, M: BindValue, N: BindValue, O: BindValue>(v: (A, B, C, D, E, F, G, H, I, J, K, L, M, N, O), before: Map<i32, Cell>)
    ensures
        (v.0.bound_cell() is Some && v.1.bound_cell() is Some && v.2.bound_cell() is Some && v.3.bound_cell() is Some && v.4.bound_cell() is Some && v.5.bound_cell() is Some && v.6.bound_cell() is Some && v.7.bound_cell() is Some && v.8.bound_cell() is Some && v.9.bound_cell() is Some && v.10.bound_cell() is Some && v.11.bound_cell() is Some && v.12.bound_cell() is Some && v.13.bound_cell() is Some && v.14.bound_cell() is Some) ==> (v.bind_spec(before) matches Some(after) && after.contains_key(1) && after[1] == v.0.bound_cell()->Some_0 && after.contains_key(2) && after[2] == v.1.bound_cell()->Some_0 && after.contains_key(3) && after[3] == v.2.bound_cell()->Some_0 && after.contains_key(4) && after[4] == v.3.bound_cell()->Some_0 && after.contains_key(5) && after[5] == v.4.bound_cell()->Some_0 && after.contains_key(6) && after[6] == v.5.bound_cell()->Some_0 && after.contains_key(7) && after[7] == v.6.bound_cell()->Some_0 && after.contains_key(8) && after[8] == v.7.bound_cell()->Some_0 && after.contains_key(9) && after[9] == v.8.bound_cell()->Some_0 && after.contains_key(10) && after[10] == v.9.bound_cell()->Some_0 && after.contains_key(11) && after[11] == v.10.bound_cell()->Some_0 && after.contains_key(12) && after[12] == v.11.bound_cell()->Some_0 && after.contains_key(13) && after[13] == v.12.bound_cell()->Some_0 && after.contains_key(14) && after[14] == v.13.bound_cell()->Some_0 && after.contains_key(15) && after[15] == v.14.bound_cell()->Some_0
            && forall|k: i32| !(1 <= k <= 15) ==> (after.contains_key(k) == before.contains_key(k) && (
            before.contains_key(k) ==> #[trigger] after[k] == before[k]))),
        !(v.0.bound_cell() is Some && v.1.bound_cell() is Some && v.2.bound_cell() is Some && v.3.bound_cell() is Some && v.4.bound_cell() is Some && v.5.bound_cell() is Some && v.6.bound_cell() is Some && v.7.bound_cell() is Some && v.8.bound_cell() is Some && v.9.bound_cell() is Some && v.10.bound_cell() is Some && v.11.bound_cell() is Some && v.12.bound_cell() is Some && v.13.bound_cell() is Some && v.14.bound_cell() is Some) ==> v.bind_spec(before) is None,
{
}

/// Binding the empty tuple changes no parameter.
pub proof fn lemma_unit_binds_nothing(before: Map<i32, Cell>)
    ensures
        ().bind_spec(before) == Some(before),
{
}

} // verus!
