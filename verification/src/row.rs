//! Decoding a whole row into a Rust value.

use vstd::prelude::*;

use crate::code::Code;
use crate::error::Error;
use crate::from_column::FromColumn;
use crate::statement::{cell_at, Statement};
use crate::ty::Type;
use crate::value::Cell;

verus! {

/// Whether the marker of `T` accepts a column holding `cell`.
pub open spec fn admitted<'stmt, T: FromColumn<'stmt>>(cell: Cell) -> bool {
    <T::Type as Type>::admits(cell)
}

/// Whether a column holding `cell` decodes into `value` as a `T`.
pub open spec fn read_ok<'stmt, T: FromColumn<'stmt>>(cell: Cell, value: T) -> bool {
    T::accepts(cell) && T::decodes_to(cell, value)
}

/// Whether decoding a column holding `cell` as a `T` fails with `e`.
pub open spec fn read_err<'stmt, T: FromColumn<'stmt>>(cell: Cell, e: Error) -> bool {
    !T::accepts(cell) && T::fails_with(cell, e)
}

/// A type that can be read from a whole row.
///
/// Every type that can be read from a column is read from the first column
/// of a row; a tuple is read column by column, its first element from the
/// first column. All columns are checked before any is decoded.
pub trait Row<'stmt>: Sized {
    /// Whether `r` is what reading the row `row` gives. There is no row
    /// before the first step and after the last; columns past the end of the
    /// row read as NULL.
    spec fn row_result(row: Option<Seq<Cell>>, r: Result<Self, Error>) -> bool;

    /// Read the current row of the statement.
    fn from_row(stmt: &'stmt Statement<'_>) -> (r: Result<Self, Error>)
        ensures
            Self::row_result(stmt.current_row(), r),
    ;
}

impl<'stmt, T: FromColumn<'stmt>> Row<'stmt> for T {
    open spec fn row_result(row: Option<Seq<Cell>>, r: Result<Self, Error>) -> bool {
        if !admitted::<'stmt, T>(cell_at(row, 0)) {
            r matches Err(e) && e.code_spec() == Code::MISMATCH
        } else {
            &&& (r is Ok <==> T::accepts(cell_at(row, 0)))
            &&& match r {
                Ok(v) => read_ok::<'stmt, T>(cell_at(row, 0), v),
                Err(e) => read_err::<'stmt, T>(cell_at(row, 0), e),
            }
        }
    }

    fn from_row(stmt: &'stmt Statement<'_>) -> (r: Result<Self, Error>) {
        let index = T::Type::check(stmt, 0)?;
        T::from_column(stmt, index)
    }
}

impl<'stmt, A> Row<'stmt> for (A,) where A: FromColumn<'stmt> {
    open spec fn row_result(row: Option<Seq<Cell>>, r: Result<Self, Error>) -> bool {
        if !(admitted::<'stmt, A>(cell_at(row, 0))) {
            r matches Err(e) && e.code_spec() == Code::MISMATCH
        } else {
            &&& (r is Ok <==> (A::accepts(cell_at(row, 0))))
            &&& match r {
                Ok((a,)) => read_ok::<'stmt, A>(cell_at(row, 0), a),
                Err(e) => read_err::<'stmt, A>(cell_at(row, 0), e),
            }
        }
    }

    fn from_row(stmt: &'stmt Statement<'_>) -> (r: Result<Self, Error>) {
        let a = A::Type::check(stmt, 0)?;
        let a = A::from_column(stmt, a)?;
        Ok((a,))
    }
}

impl<'stmt, A, B> Row<'stmt> for (A, B) where A: FromColumn<'stmt>, B: FromColumn<'stmt> {
    open spec fn row_result(row: Option<Seq<Cell>>, r: Result<Self, Error>) -> bool {
        if !(admitted::<'stmt, A>(cell_at(row, 0)) && admitted::<'stmt, B>(cell_at(row, 1))) {
            r matches Err(e) && e.code_spec() == Code::MISMATCH
        } else {
            &&& (r is Ok <==> (A::accepts(cell_at(row, 0)) && B::accepts(cell_at(row, 1))))
            &&& match r {
                Ok((a, b)) => read_ok::<'stmt, A>(cell_at(row, 0), a) && read_ok::<'stmt, B>(cell_at(row, 1), b),
                Err(e) => read_err::<'stmt, A>(cell_at(row, 0), e)
                    || (A::accepts(cell_at(row, 0)) && read_err::<'stmt, B>(cell_at(row, 1), e)),
            }
        }
    }

    fn from_row(stmt: &'stmt Statement<'_>) -> (r: Result<Self, Error>) {
        let a = A::Type::check(stmt, 0)?;
        let b = B::Type::check(stmt, 1)?;
        let a = A::from_column(stmt, a)?;
        let b = B::from_column(stmt, b)?;
        Ok((a, b))
    }
}

impl<'stmt, A, B, C> Row<'stmt> for (A, B, C) where A: FromColumn<'stmt>, B: FromColumn<'stmt>, C: FromColumn<'stmt> {
    open spec fn row_result(row: Option<Seq<Cell>>, r: Result<Self, Error>) -> bool {
        if !(admitted::<'stmt, A>(cell_at(row, 0)) && admitted::<'stmt, B>(cell_at(row, 1)) && admitted::<'stmt, C>(cell_at(row, 2))) {
            r matches Err(e) && e.code_spec() == Code::MISMATCH
        } else {
            &&& (r is Ok <==> (A::accepts(cell_at(row, 0)) && B::accepts(cell_at(row, 1)) && C::accepts(cell_at(row, 2))))
            &&& match r {
                Ok((a, b, c)) => read_ok::<'stmt, A>(cell_at(row, 0), a) && read_ok::<'stmt, B>(cell_at(row, 1), b) && read_ok::<'stmt, C>(cell_at(row, 2), c),
                Err(e) => read_err::<'stmt, A>(cell_at(row, 0), e)
                    || (A::accepts(cell_at(row, 0)) && read_err::<'stmt, B>(cell_at(row, 1), e))
                    || (A::accepts(cell_at(row, 0)) && B::accepts(cell_at(row, 1)) && read_err::<'stmt, C>(cell_at(row, 2), e)),
            }
        }
    }

    fn from_row(stmt: &'stmt Statement<'_>) -> (r: Result<Self, Error>) {
        let a = A::Type::check(stmt, 0)?;
        let b = B::Type::check(stmt, 1)?;
        let c = C::Type::check(stmt, 2)?;
        let a = A::from_column(stmt, a)?;
        let b = B::from_column(stmt, b)?;
        let c = C::from_column(stmt, c)?;
        Ok((a, b, c))
    }
}

impl<'stmt, A, B, C, D> Row<'stmt> for (A, B, C, D) where A: FromColumn<'stmt>, B: FromColumn<'stmt>, C: FromColumn<'stmt>, D: FromColumn<'stmt> {
    open spec fn row_result(row: Option<Seq<Cell>>, r: Result<Self, Error>) -> bool {
        if !(admitted::<'stmt, A>(cell_at(row, 0)) && admitted::<'stmt, B>(cell_at(row, 1)) && admitted::<'stmt, C>(cell_at(row, 2)) && admitted::<'stmt, D>(cell_at(row, 3))) {
            r matches Err(e) && e.code_spec() == Code::MISMATCH
        } else {
            &&& (r is Ok <==> (A::accepts(cell_at(row, 0)) && B::accepts(cell_at(row, 1)) && C::accepts(cell_at(row, 2)) && D::accepts(cell_at(row, 3))))
            &&& match r {
                Ok((a, b, c, d)) => read_ok::<'stmt, A>(cell_at(row, 0), a) && read_ok::<'stmt, B>(cell_at(row, 1), b) && read_ok::<'stmt, C>(cell_at(row, 2), c) && read_ok::<'stmt, D>(cell_at(row, 3), d),
                Err(e) => read_err::<'stmt, A>(cell_at(row, 0), e)
                    || (A::accepts(cell_at(row, 0)) && read_err::<'stmt, B>(cell_at(row, 1), e))
                    || (A::accepts(cell_at(row, 0)) && B::accepts(cell_at(row, 1)) && read_err::<'stmt, C>(cell_at(row, 2), e))
                    || (A::accepts(cell_at(row, 0)) && B::accepts(cell_at(row, 1)) && C::accepts(cell_at(row, 2)) && read_err::<'stmt, D>(cell_at(row, 3), e)),
            }
        }
    }

    fn from_row(stmt: &'stmt Statement<'_>) -> (r: Result<Self, Error>) {
        let a = A::Type::check(stmt, 0)?;
        let b = B::Type::check(stmt, 1)?;
        let c = C::Type::check(stmt, 2)?;
        let d = D::Type::check(stmt, 3)?;
        let a = A::from_column(stmt, a)?;
        let b = B::from_column(stmt, b)?;
        let c = C::from_column(stmt, c)?;
        let d = D::from_column(stmt, d)?;
        Ok((a, b, c, d))
    }
}

impl<'stmt, A, B, C, D, E> Row<'stmt> for (A, B, C, D, E) where A: FromColumn<'stmt>, B: FromColumn<'stmt>, C: FromColumn<'stmt>, D: FromColumn<'stmt>, E: FromColumn<'stmt> {
    open spec fn row_result(row: Option<Seq<Cell>>, r: Result<Self, Error>) -> bool {
        if !(admitted::<'stmt, A>(cell_at(row, 0)) && admitted::<'stmt, B>(cell_at(row, 1)) && admitted::<'stmt, C>(cell_at(row, 2)) && admitted::<'stmt, D>(cell_at(row, 3)) && admitted::<'stmt, E>(cell_at(row, 4))) {
            r matches Err(e) && e.code_spec() == Code::MISMATCH
        } else {
            &&& (r is Ok <==> (A::accepts(cell_at(row, 0)) && B::accepts(cell_at(row, 1)) && C::accepts(cell_at(row, 2)) && D::accepts(cell_at(row, 3)) && E::accepts(cell_at(row, 4))))
            &&& match r {
                Ok((a, b, c, d, e)) => read_ok::<'stmt, A>(cell_at(row, 0), a) && read_ok::<'stmt, B>(cell_at(row, 1), b) && read_ok::<'stmt, C>(cell_at(row, 2), c) && read_ok::<'stmt, D>(cell_at(row, 3), d) && read_ok::<'stmt, E>(cell_at(row, 4), e),
                Err(e) => read_err::<'stmt, A>(cell_at(row, 0), e)
                    || (A::accepts(cell_at(row, 0)) && read_err::<'stmt, B>(cell_at(row, 1), e))
                    || (A::accepts(cell_at(row, 0)) && B::accepts(cell_at(row, 1)) && read_err::<'stmt, C>(cell_at(row, 2), e))
                    || (A::accepts(cell_at(row, 0)) && B::accepts(cell_at(row, 1)) && C::accepts(cell_at(row, 2)) && read_err::<'stmt, D>(cell_at(row, 3), e))
                    || (A::accepts(cell_at(row, 0)) && B::accepts(cell_at(row, 1)) && C::accepts(cell_at(row, 2)) && D::accepts(cell_at(row, 3)) && read_err::<'stmt, E>(cell_at(row, 4), e)),
            }
        }
    }

    fn from_row(stmt: &'stmt Statement<'_>) -> (r: Result<Self, Error>) {
        let a = A::Type::check(stmt, 0)?;
        let b = B::Type::check(stmt, 1)?;
        let c = C::Type::check(stmt, 2)?;
        let d = D::Type::check(stmt, 3)?;
        let e = E::Type::check(stmt, 4)?;
        let a = A::from_column(stmt, a)?;
        let b = B::from_column(stmt, b)?;
        let c = C::from_column(stmt, c)?;
        let d = D::from_column(stmt, d)?;
        let e = E::from_column(stmt, e)?;
        Ok((a, b, c, d, e))
    }
}

impl<'stmt, A, B, C, D, E, F> Row<'stmt> for (A, B, C, D, E, F) where A: FromColumn<'stmt>, B: FromColumn<'stmt>, C: FromColumn<'stmt>, D: FromColumn<'stmt>, E: FromColumn<'stmt>, F: FromColumn<'stmt> {
    open spec fn row_result(row: Option<Seq<Cell>>, r: Result<Self, Error>) -> bool {
        if !(admitted::<'stmt, A>(cell_at(row, 0)) && admitted::<'stmt, B>(cell_at(row, 1)) && admitted::<'stmt, C>(cell_at(row, 2)) && admitted::<'stmt, D>(cell_at(row, 3)) && admitted::<'stmt, E>(cell_at(row, 4)) && admitted::<'stmt, F>(cell_at(row, 5))) {
            r matches Err(e) && e.code_spec() == Code::MISMATCH
        } else {
            &&& (r is Ok <==> (A::accepts(cell_at(row, 0)) && B::accepts(cell_at(row, 1)) && C::accepts(cell_at(row, 2)) && D::accepts(cell_at(row, 3)) && E::accepts(cell_at(row, 4)) && F::accepts(cell_at(row, 5))))
            &&& match r {
                Ok((a, b, c, d, e, f)) => read_ok::<'stmt, A>(cell_at(row, 0), a) && read_ok::<'stmt, B>(cell_at(row, 1), b) && read_ok::<'stmt, C>(cell_at(row, 2), c) && read_ok::<'stmt, D>(cell_at(row, 3), d) && read_ok::<'stmt, E>(cell_at(row, 4), e) && read_ok::<'stmt, F>(cell_at(row, 5), f),
                Err(e) => read_err::<'stmt, A>(cell_at(row, 0), e)
                    || (A::accepts(cell_at(row, 0)) && read_err::<'stmt, B>(cell_at(row, 1), e))
                    || (A::accepts(cell_at(row, 0)) && B::accepts(cell_at(row, 1)) && read_err::<'stmt, C>(cell_at(row, 2), e))
                    || (A::accepts(cell_at(row, 0)) && B::accepts(cell_at(row, 1)) && C::accepts(cell_at(row, 2)) && read_err::<'stmt, D>(cell_at(row, 3), e))
                    || (A::accepts(cell_at(row, 0)) && B::accepts(cell_at(row, 1)) && C::accepts(cell_at(row, 2)) && D::accepts(cell_at(row, 3)) && read_err::<'stmt, E>(cell_at(row, 4), e))
                    || (A::accepts(cell_at(row, 0)) && B::accepts(cell_at(row, 1)) && C::accepts(cell_at(row, 2)) && D::accepts(cell_at(row, 3)) && E::accepts(cell_at(row, 4)) && read_err::<'stmt, F>(cell_at(row, 5), e)),
            }
        }
    }

    fn from_row(stmt: &'stmt Statement<'_>) -> (r: Result<Self, Error>) {
        let a = A::Type::check(stmt, 0)?;
        let b = B::Type::check(stmt, 1)?;
        let c = C::Type::check(stmt, 2)?;
        let d = D::Type::check(stmt, 3)?;
        let e = E::Type::check(stmt, 4)?;
        let f = F::Type::check(stmt, 5)?;
        let a = A::from_column(stmt, a)?;
        let b = B::from_column(stmt, b)?;
        let c = C::from_column(stmt, c)?;
        let d = D::from_column(stmt, d)?;
        let e = E::from_column(stmt, e)?;
        let f = F::from_column(stmt, f)?;
        Ok((a, b, c, d, e, f))
    }
}

impl<'stmt, A, B, C, D, E, F, G> Row<'stmt> for (A, B, C, D, E, F, G) where A: FromColumn<'stmt>, B: FromColumn<'stmt>, C: FromColumn<'stmt>, D: FromColumn<'stmt>, E: FromColumn<'stmt>, F: FromColumn<'stmt>, G: FromColumn<'stmt> {
    open spec fn row_result(row: Option<Seq<Cell>>, r: Result<Self, Error>) -> bool {
        if !(admitted::<'stmt, A>(cell_at(row, 0)) && admitted::<'stmt, B>(cell_at(row, 1)) && admitted::<'stmt, C>(cell_at(row, 2)) && admitted::<'stmt, D>(cell_at(row, 3)) && admitted::<'stmt, E>(cell_at(row, 4)) && admitted::<'stmt, F>(cell_at(row, 5)) && admitted::<'stmt, G>(cell_at(row, 6))) {
            r matches Err(e) && e.code_spec() == Code::MISMATCH
        } else {
            &&& (r is Ok <==> (A::accepts(cell_at(row, 0)) && B::accepts(cell_at(row, 1)) && C::accepts(cell_at(row, 2)) && D::accepts(cell_at(row, 3)) && E::accepts(cell_at(row, 4)) && F::accepts(cell_at(row, 5)) && G::accepts(cell_at(row, 6))))
            &&& match r {
                Ok((a, b, c, d, e, f, g)) => read_ok::<'stmt, A>(cell_at(row, 0), a) && read_ok::<'stmt, B>(cell_at(row, 1), b) && read_ok::<'stmt, C>(cell_at(row, 2), c) && read_ok::<'stmt, D>(cell_at(row, 3), d) && read_ok::<'stmt, E>(cell_at(row, 4), e) && read_ok::<'stmt, F>(cell_at(row, 5), f) && read_ok::<'stmt, G>(cell_at(row, 6), g),
                Err(e) => read_err::<'stmt, A>(cell_at(row, 0), e)
                    || (A::accepts(cell_at(row, 0)) && read_err::<'stmt, B>(cell_at(row, 1), e))
                    || (A::accepts(cell_at(row, 0)) && B::accepts(cell_at(row, 1)) && read_err::<'stmt, C>(cell_at(row, 2), e))
                    || (A::accepts(cell_at(row, 0)) && B::accepts(cell_at(row, 1)) && C::accepts(cell_at(row, 2)) && read_err::<'stmt, D>(cell_at(row, 3), e))
                    || (A::accepts(cell_at(row, 0)) && B::accepts(cell_at(row, 1)) && C::accepts(cell_at(row, 2)) && D::accepts(cell_at(row, 3)) && read_err::<'stmt, E>(cell_at(row, 4), e))
                    || (A::accepts(cell_at(row, 0)) && B::accepts(cell_at(row, 1)) && C::accepts(cell_at(row, 2)) && D::accepts(cell_at(row, 3)) && E::accepts(cell_at(row, 4)) && read_err::<'stmt, F>(cell_at(row, 5), e))
                    || (A::accepts(cell_at(row, 0)) && B::accepts(cell_at(row, 1)) && C::accepts(cell_at(row, 2)) && D::accepts(cell_at(row, 3)) && E::accepts(cell_at(row, 4)) && F::accepts(cell_at(row, 5)) && read_err::<'stmt, G>(cell_at(row, 6), e)),
            }
        }
    }

    fn from_row(stmt: &'stmt Statement<'_>) -> (r: Result<Self, Error>) {
        let a = A::Type::check(stmt, 0)?;
        let b = B::Type::check(stmt, 1)?;
        let c = C::Type::check(stmt, 2)?;
        let d = D::Type::check(stmt, 3)?;
        let e = E::Type::check(stmt, 4)?;
        let f = F::Type::check(stmt, 5)?;
        let g = G::Type::check(stmt, 6)?;
        let a = A::from_column(stmt, a)?;
        let b = B::from_column(stmt, b)?;
        let c = C::from_column(stmt, c)?;
        let d = D::from_column(stmt, d)?;
        let e = E::from_column(stmt, e)?;
        let f = F::from_column(stmt, f)?;
        let g = G::from_column(stmt, g)?;
        Ok((a, b, c, d, e, f, g))
    }
}

impl<'stmt, A, B, C, D, E, F, G, H> Row<'stmt> for (A, B, C, D, E, F, G, H) where A: FromColumn<'stmt>, B: FromColumn<'stmt>, C: FromColumn<'stmt>, D: FromColumn<'stmt>, E: FromColumn<'stmt>, F: FromColumn<'stmt>, G: FromColumn<'stmt>, H: FromColumn<'stmt> {
    open spec fn row_result(row: Option<Seq<Cell>>, r: Result<Self, Error>) -> bool {
        if !(admitted::<'stmt, A>(cell_at(row, 0)) && admitted::<'stmt, B>(cell_at(row, 1)) && admitted::<'stmt, C>(cell_at(row, 2)) && admitted::<'stmt, D>(cell_at(row, 3)) && admitted::<'stmt, E>(cell_at(row, 4)) && admitted::<'stmt, F>(cell_at(row, 5)) && admitted::<'stmt, G>(cell_at(row, 6)) && admitted::<'stmt, H>(cell_at(row, 7))) {
            r matches Err(e) && e.code_spec() == Code::MISMATCH
        } else {
            &&& (r is Ok <==> (A::accepts(cell_at(row, 0)) && B::accepts(cell_at(row, 1)) && C::accepts(cell_at(row, 2)) && D::accepts(cell_at(row, 3)) && E::accepts(cell_at(row, 4)) && F::accepts(cell_at(row, 5)) && G::accepts(cell_at(row, 6)) && H::accepts(cell_at(row, 7))))
            &&& match r {
                Ok((a, b, c, d, e, f, g, h)) => read_ok::<'stmt, A>(cell_at(row, 0), a) && read_ok::<'stmt, B>(cell_at(row, 1), b) && read_ok::<'stmt, C>(cell_at(row, 2), c) && read_ok::<'stmt, D>(cell_at(row, 3), d) && read_ok::<'stmt, E>(cell_at(row, 4), e) && read_ok::<'stmt, F>(cell_at(row, 5), f) && read_ok::<'stmt, G>(cell_at(row, 6), g) && read_ok::<'stmt, H>(cell_at(row, 7), h),
                Err(e) => read_err::<'stmt, A>(cell_at(row, 0), e)
                    || (A::accepts(cell_at(row, 0)) && read_err::<'stmt, B>(cell_at(row, 1), e))
                    || (A::accepts(cell_at(row, 0)) && B::accepts(cell_at(row, 1)) && read_err::<'stmt, C>(cell_at(row, 2), e))
                    || (A::accepts(cell_at(row, 0)) && B::accepts(cell_at(row, 1)) && C::accepts(cell_at(row, 2)) && read_err::<'stmt, D>(cell_at(row, 3), e))
                    || (A::accepts(cell_at(row, 0)) && B::accepts(cell_at(row, 1)) && C::accepts(cell_at(row, 2)) && D::accepts(cell_at(row, 3)) && read_err::<'stmt, E>(cell_at(row, 4), e))
                    || (A::accepts(cell_at(row, 0)) && B::accepts(cell_at(row, 1)) && C::accepts(cell_at(row, 2)) && D::accepts(cell_at(row, 3)) && E::accepts(cell_at(row, 4)) && read_err::<'stmt, F>(cell_at(row, 5), e))
                    || (A::accepts(cell_at(row, 0)) && B::accepts(cell_at(row, 1)) && C::accepts(cell_at(row, 2)) && D::accepts(cell_at(row, 3)) && E::accepts(cell_at(row, 4)) && F::accepts(cell_at(row, 5)) && read_err::<'stmt, G>(cell_at(row, 6), e))
                    || (A::accepts(cell_at(row, 0)) && B::accepts(cell_at(row, 1)) && C::accepts(cell_at(row, 2)) && D::accepts(cell_at(row, 3)) && E::accepts(cell_at(row, 4)) && F::accepts(cell_at(row, 5)) && G::accepts(cell_at(row, 6)) && read_err::<'stmt, H>(cell_at(row, 7), e)),
            }
        }
    }

    fn from_row(stmt: &'stmt Statement<'_>) -> (r: Result<Self, Error>) {
        let a = A::Type::check(stmt, 0)?;
        let b = B::Type::check(stmt, 1)?;
        let c = C::Type::check(stmt, 2)?;
        let d = D::Type::check(stmt, 3)?;
        let e = E::Type::check(stmt, 4)?;
        let f = F::Type::check(stmt, 5)?;
        let g = G::Type::check(stmt, 6)?;
        let h = H::Type::check(stmt, 7)?;
        let a = A::from_column(stmt, a)?;
        let b = B::from_column(stmt, b)?;
        let c = C::from_column(stmt, c)?;
        let d = D::from_column(stmt, d)?;
        let e = E::from_column(stmt, e)?;
        let f = F::from_column(stmt, f)?;
        let g = G::from_column(stmt, g)?;
        let h = H::from_column(stmt, h)?;
        Ok((a, b, c, d, e, f, g, h))
    }
}

impl<'stmt, A, B, C, D, E, F, G, H, I> Row<'stmt> for (A, B, C, D, E, F, G, H, I) where A: FromColumn<'stmt>, B: FromColumn<'stmt>, C: FromColumn<'stmt>, D: FromColumn<'stmt>, E: FromColumn<'stmt>, F: FromColumn<'stmt>, G: FromColumn<'stmt>, H: FromColumn<'stmt>, I: FromColumn<'stmt> {
    open spec fn row_result(row: Option<Seq<Cell>>, r: Result<Self, Error>) -> bool {
        if !(admitted::<'stmt, A>(cell_at(row, 0)) && admitted::<'stmt, B>(cell_at(row, 1)) && admitted::<'stmt, C>(cell_at(row, 2)) && admitted::<'stmt, D>(cell_at(row, 3)) && admitted::<'stmt, E>(cell_at(row, 4)) && admitted::<'stmt, F>(cell_at(row, 5)) && admitted::<'stmt, G>(cell_at(row, 6)) && admitted::<'stmt, H>(cell_at(row, 7)) && admitted::<'stmt, I>(cell_at(row, 8))) {
            r matches Err(e) && e.code_spec() == Code::MISMATCH
        } else {
            &&& (r is Ok <==> (A::accepts(cell_at(row, 0)) && B::accepts(cell_at(row, 1)) && C::accepts(cell_at(row, 2)) && D::accepts(cell_at(row, 3)) && E::accepts(cell_at(row, 4)) && F::accepts(cell_at(row, 5)) && G::accepts(cell_at(row, 6)) && H::accepts(cell_at(row, 7)) && I::accepts(cell_at(row, 8))))
            &&& match r {
                Ok((a, b, c, d, e, f, g, h, i)) => read_ok::<'stmt, A>(cell_at(row, 0), a) && read_ok::<'stmt, B>(cell_at(row, 1), b) && read_ok::<'stmt, C>(cell_at(row, 2), c) && read_ok::<'stmt, D>(cell_at(row, 3), d) && read_ok::<'stmt, E>(cell_at(row, 4), e) && read_ok::<'stmt, F>(cell_at(row, 5), f) && read_ok::<'stmt, G>(cell_at(row, 6), g) && read_ok::<'stmt, H>(cell_at(row, 7), h) && read_ok::<'stmt, I>(cell_at(row, 8), i),
                Err(e) => read_err::<'stmt, A>(cell_at(row, 0), e)
                    || (A::accepts(cell_at(row, 0)) && read_err::<'stmt, B>(cell_at(row, 1), e))
                    || (A::accepts(cell_at(row, 0)) && B::accepts(cell_at(row, 1)) && read_err::<'stmt, C>(cell_at(row, 2), e))
                    || (A::accepts(cell_at(row, 0)) && B::accepts(cell_at(row, 1)) && C::accepts(cell_at(row, 2)) && read_err::<'stmt, D>(cell_at(row, 3), e))
                    || (A::accepts(cell_at(row, 0)) && B::accepts(cell_at(row, 1)) && C::accepts(cell_at(row, 2)) && D::accepts(cell_at(row, 3)) && read_err::<'stmt, E>(cell_at(row, 4), e))
                    || (A::accepts(cell_at(row, 0)) && B::accepts(cell_at(row, 1)) && C::accepts(cell_at(row, 2)) && D::accepts(cell_at(row, 3)) && E::accepts(cell_at(row, 4)) && read_err::<'stmt, F>(cell_at(row, 5), e))
                    || (A::accepts(cell_at(row, 0)) && B::accepts(cell_at(row, 1)) && C::accepts(cell_at(row, 2)) && D::accepts(cell_at(row, 3)) && E::accepts(cell_at(row, 4)) && F::accepts(cell_at(row, 5)) && read_err::<'stmt, G>(cell_at(row, 6), e))
                    || (A::accepts(cell_at(row, 0)) && B::accepts(cell_at(row, 1)) && C::accepts(cell_at(row, 2)) && D::accepts(cell_at(row, 3)) && E::accepts(cell_at(row, 4)) && F::accepts(cell_at(row, 5)) && G::accepts(cell_at(row, 6)) && read_err::<'stmt, H>(cell_at(row, 7), e))
                    || (A::accepts(cell_at(row, 0)) && B::accepts(cell_at(row, 1)) && C::accepts(cell_at(row, 2)) && D::accepts(cell_at(row, 3)) && E::accepts(cell_at(row, 4)) && F::accepts(cell_at(row, 5)) && G::accepts(cell_at(row, 6)) && H::accepts(cell_at(row, 7)) && read_err::<'stmt, I>(cell_at(row, 8), e)),
            }
        }
    }

    fn from_row(stmt: &'stmt Statement<'_>) -> (r: Result<Self, Error>) {
        let a = A::Type::check(stmt, 0)?;
        let b = B::Type::check(stmt, 1)?;
        let c = C::Type::check(stmt, 2)?;
        let d = D::Type::check(stmt, 3)?;
        let e = E::Type::check(stmt, 4)?;
        let f = F::Type::check(stmt, 5)?;
        let g = G::Type::check(stmt, 6)?;
        let h = H::Type::check(stmt, 7)?;
        let i = I::Type::check(stmt, 8)?;
        let a = A::from_column(stmt, a)?;
        let b = B::from_column(stmt, b)?;
        let c = C::from_column(stmt, c)?;
        let d = D::from_column(stmt, d)?;
        let e = E::from_column(stmt, e)?;
        let f = F::from_column(stmt, f)?;
        let g = G::from_column(stmt, g)?;
        let h = H::from_column(stmt, h)?;
        let i = I::from_column(stmt, i)?;
        Ok((a, b, c, d, e, f, g, h, i))
    }
}

impl<'stmt, A, B, C, D, E, F, G, H, I, J> Row<'stmt> for (A, B, C, D, E, F, G, H, I, J) where A: FromColumn<'stmt>, B: FromColumn<'stmt>, C: FromColumn<'stmt>, D: FromColumn<'stmt>, E: FromColumn<'stmt>, F: FromColumn<'stmt>, G: FromColumn<'stmt>, H: FromColumn<'stmt>, I: FromColumn<'stmt>, J: FromColumn<'stmt> {
    open spec fn row_result(row: Option<Seq<Cell>>, r: Result<Self, Error>) -> bool {
        if !(admitted::<'stmt, A>(cell_at(row, 0)) && admitted::<'stmt, B>(cell_at(row, 1)) && admitted::<'stmt, C>(cell_at(row, 2)) && admitted::<'stmt, D>(cell_at(row, 3)) && admitted::<'stmt, E>(cell_at(row, 4)) && admitted::<'stmt, F>(cell_at(row, 5)) && admitted::<'stmt, G>(cell_at(row, 6)) && admitted::<'stmt, H>(cell_at(row, 7)) && admitted::<'stmt, I>(cell_at(row, 8)) && admitted::<'stmt, J>(cell_at(row, 9))) {
            r matches Err(e) && e.code_spec() == Code::MISMATCH
        } else {
            &&& (r is Ok <==> (A::accepts(cell_at(row, 0)) && B::accepts(cell_at(row, 1)) && C::accepts(cell_at(row, 2)) && D::accepts(cell_at(row, 3)) && E::accepts(cell_at(row, 4)) && F::accepts(cell_at(row, 5)) && G::accepts(cell_at(row, 6)) && H::accepts(cell_at(row, 7)) && I::accepts(cell_at(row, 8)) && J::accepts(cell_at(row, 9))))
            &&& match r {
                Ok((a, b, c, d, e, f, g, h, i, j)) => read_ok::<'stmt, A>(cell_at(row, 0), a) && read_ok::<'stmt, B>(cell_at(row, 1), b) && read_ok::<'stmt, C>(cell_at(row, 2), c) && read_ok::<'stmt, D>(cell_at(row, 3), d) && read_ok::<'stmt, E>(cell_at(row, 4), e) && read_ok::<'stmt, F>(cell_at(row, 5), f) && read_ok::<'stmt, G>(cell_at(row, 6), g) && read_ok::<'stmt, H>(cell_at(row, 7), h) && read_ok::<'stmt, I>(cell_at(row, 8), i) && read_ok::<'stmt, J>(cell_at(row, 9), j),
                Err(e) => read_err::<'stmt, A>(cell_at(row, 0), e)
                    || (A::accepts(cell_at(row, 0)) && read_err::<'stmt, B>(cell_at(row, 1), e))
                    || (A::accepts(cell_at(row, 0)) && B::accepts(cell_at(row, 1)) && read_err::<'stmt, C>(cell_at(row, 2), e))
                    || (A::accepts(cell_at(row, 0)) && B::accepts(cell_at(row, 1)) && C::accepts(cell_at(row, 2)) && read_err::<'stmt, D>(cell_at(row, 3), e))
                    || (A::accepts(cell_at(row, 0)) && B::accepts(cell_at(row, 1)) && C::accepts(cell_at(row, 2)) && D::accepts(cell_at(row, 3)) && read_err::<'stmt, E>(cell_at(row, 4), e))
                    || (A::accepts(cell_at(row, 0)) && B::accepts(cell_at(row, 1)) && C::accepts(cell_at(row, 2)) && D::accepts(cell_at(row, 3)) && E::accepts(cell_at(row, 4)) && read_err::<'stmt, F>(cell_at(row, 5), e))
                    || (A::accepts(cell_at(row, 0)) && B::accepts(cell_at(row, 1)) && C::accepts(cell_at(row, 2)) && D::accepts(cell_at(row, 3)) && E::accepts(cell_at(row, 4)) && F::accepts(cell_at(row, 5)) && read_err::<'stmt, G>(cell_at(row, 6), e))
                    || (A::accepts(cell_at(row, 0)) && B::accepts(cell_at(row, 1)) && C::accepts(cell_at(row, 2)) && D::accepts(cell_at(row, 3)) && E::accepts(cell_at(row, 4)) && F::accepts(cell_at(row, 5)) && G::accepts(cell_at(row, 6)) && read_err::<'stmt, H>(cell_at(row, 7), e))
                    || (A::accepts(cell_at(row, 0)) && B::accepts(cell_at(row, 1)) && C::accepts(cell_at(row, 2)) && D::accepts(cell_at(row, 3)) && E::accepts(cell_at(row, 4)) && F::accepts(cell_at(row, 5)) && G::accepts(cell_at(row, 6)) && H::accepts(cell_at(row, 7)) && read_err::<'stmt, I>(cell_at(row, 8), e))
                    || (A::accepts(cell_at(row, 0)) && B::accepts(cell_at(row, 1)) && C::accepts(cell_at(row, 2)) && D::accepts(cell_at(row, 3)) && E::accepts(cell_at(row, 4)) && F::accepts(cell_at(row, 5)) && G::accepts(cell_at(row, 6)) && H::accepts(cell_at(row, 7)) && I::accepts(cell_at(row, 8)) && read_err::<'stmt, J>(cell_at(row, 9), e)),
            }
        }
    }

    fn from_row(stmt: &'stmt Statement<'_>) -> (r: Result<Self, Error>) {
        let a = A::Type::check(stmt, 0)?;
        let b = B::Type::check(stmt, 1)?;
        let c = C::Type::check(stmt, 2)?;
        let d = D::Type::check(stmt, 3)?;
        let e = E::Type::check(stmt, 4)?;
        let f = F::Type::check(stmt, 5)?;
        let g = G::Type::check(stmt, 6)?;
        let h = H::Type::check(stmt, 7)?;
        let i = I::Type::check(stmt, 8)?;
        let j = J::Type::check(stmt, 9)?;
        let a = A::from_column(stmt, a)?;
        let b = B::from_column(stmt, b)?;
        let c = C::from_column(stmt, c)?;
        let d = D::from_column(stmt, d)?;
        let e = E::from_column(stmt, e)?;
        let f = F::from_column(stmt, f)?;
        let g = G::from_column(stmt, g)?;
        let h = H::from_column(stmt, h)?;
        let i = I::from_column(stmt, i)?;
        let j = J::from_column(stmt, j)?;
        Ok((a, b, c, d, e, f, g, h, i, j))
    }
}

impl<'stmt, A, B, C, D, E, F, G, H, I, J, K> Row<'stmt> for (A, B, C, D, E, F, G, H, I, J, K) where A: FromColumn<'stmt>, B: FromColumn<'stmt>, C: FromColumn<'stmt>, D: FromColumn<'stmt>, E: FromColumn<'stmt>, F: FromColumn<'stmt>, G: FromColumn<'stmt>, H: FromColumn<'stmt>, I: FromColumn<'stmt>, J: FromColumn<'stmt>, K: FromColumn<'stmt> {
    open spec fn row_result(row: Option<Seq<Cell>>, r: Result<Self, Error>) -> bool {
        if !(admitted::<'stmt, A>(cell_at(row, 0)) && admitted::<'stmt, B>(cell_at(row, 1)) && admitted::<'stmt, C>(cell_at(row, 2)) && admitted::<'stmt, D>(cell_at(row, 3)) && admitted::<'stmt, E>(cell_at(row, 4)) && admitted::<'stmt, F>(cell_at(row, 5)) && admitted::<'stmt, G>(cell_at(row, 6)) && admitted::<'stmt, H>(cell_at(row, 7)) && admitted::<'stmt, I>(cell_at(row, 8)) && admitted::<'stmt, J>(cell_at(row, 9)) && admitted::<'stmt, K>(cell_at(row, 10))) {
            r matches Err(e) && e.code_spec() == Code::MISMATCH
        } else {
            &&& (r is Ok <==> (A::accepts(cell_at(row, 0)) && B::accepts(cell_at(row, 1)) && C::accepts(cell_at(row, 2)) && D::accepts(cell_at(row, 3)) && E::accepts(cell_at(row, 4)) && F::accepts(cell_at(row, 5)) && G::accepts(cell_at(row, 6)) && H::accepts(cell_at(row, 7)) && I::accepts(cell_at(row, 8)) && J::accepts(cell_at(row, 9)) && K::accepts(cell_at(row, 10))))
            &&& match r {
                Ok((a, b, c, d, e, f, g, h, i, j, k)) => read_ok::<'stmt, A>(cell_at(row, 0), a) && read_ok::<'stmt, B>(cell_at(row, 1), b) && read_ok::<'stmt, C>(cell_at(row, 2), c) && read_ok::<'stmt, D>(cell_at(row, 3), d) && read_ok::<'stmt, E>(cell_at(row, 4), e) && read_ok::<'stmt, F>(cell_at(row, 5), f) && read_ok::<'stmt, G>(cell_at(row, 6), g) && read_ok::<'stmt, H>(cell_at(row, 7), h) && read_ok::<'stmt, I>(cell_at(row, 8), i) && read_ok::<'stmt, J>(cell_at(row, 9), j) && read_ok::<'stmt, K>(cell_at(row, 10), k),
                Err(e) => read_err::<'stmt, A>(cell_at(row, 0), e)
                    || (A::accepts(cell_at(row, 0)) && read_err::<'stmt, B>(cell_at(row, 1), e))
                    || (A::accepts(cell_at(row, 0)) && B::accepts(cell_at(row, 1)) && read_err::<'stmt, C>(cell_at(row, 2), e))
                    || (A::accepts(cell_at(row, 0)) && B::accepts(cell_at(row, 1)) && C::accepts(cell_at(row, 2)) && read_err::<'stmt, D>(cell_at(row, 3), e))
                    || (A::accepts(cell_at(row, 0)) && B::accepts(cell_at(row, 1)) && C::accepts(cell_at(row, 2)) && D::accepts(cell_at(row, 3)) && read_err::<'stmt, E>(cell_at(row, 4), e))
                    || (A::accepts(cell_at(row, 0)) && B::accepts(cell_at(row, 1)) && C::accepts(cell_at(row, 2)) && D::accepts(cell_at(row, 3)) && E::accepts(cell_at(row, 4)) && read_err::<'stmt, F>(cell_at(row, 5), e))
                    || (A::accepts(cell_at(row, 0)) && B::accepts(cell_at(row, 1)) && C::accepts(cell_at(row, 2)) && D::accepts(cell_at(row, 3)) && E::accepts(cell_at(row, 4)) && F::accepts(cell_at(row, 5)) && read_err::<'stmt, G>(cell_at(row, 6), e))
                    || (A::accepts(cell_at(row, 0)) && B::accepts(cell_at(row, 1)) && C::accepts(cell_at(row, 2)) && D::accepts(cell_at(row, 3)) && E::accepts(cell_at(row, 4)) && F::accepts(cell_at(row, 5)) && G::accepts(cell_at(row, 6)) && read_err::<'stmt, H>(cell_at(row, 7), e))
                    || (A::accepts(cell_at(row, 0)) && B::accepts(cell_at(row, 1)) && C::accepts(cell_at(row, 2)) && D::accepts(cell_at(row, 3)) && E::accepts(cell_at(row, 4)) && F::accepts(cell_at(row, 5)) && G::accepts(cell_at(row, 6)) && H::accepts(cell_at(row, 7)) && read_err::<'stmt, I>(cell_at(row, 8), e))
                    || (A::accepts(cell_at(row, 0)) && B::accepts(cell_at(row, 1)) && C::accepts(cell_at(row, 2)) && D::accepts(cell_at(row, 3)) && E::accepts(cell_at(row, 4)) && F::accepts(cell_at(row, 5)) && G::accepts(cell_at(row, 6)) && H::accepts(cell_at(row, 7)) && I::accepts(cell_at(row, 8)) && read_err::<'stmt, J>(cell_at(row, 9), e))
                    || (A::accepts(cell_at(row, 0)) && B::accepts(cell_at(row, 1)) && C::accepts(cell_at(row, 2)) && D::accepts(cell_at(row, 3)) && E::accepts(cell_at(row, 4)) && F::accepts(cell_at(row, 5)) && G::accepts(cell_at(row, 6)) && H::accepts(cell_at(row, 7)) && I::accepts(cell_at(row, 8)) && J::accepts(cell_at(row, 9)) && read_err::<'stmt, K>(cell_at(row, 10), e)),
            }
        }
    }

    fn from_row(stmt: &'stmt Statement<'_>) -> (r: Result<Self, Error>) {
        let a = A::Type::check(stmt, 0)?;
        let b = B::Type::check(stmt, 1)?;
        let c = C::Type::check(stmt, 2)?;
        let d = D::Type::check(stmt, 3)?;
        let e = E::Type::check(stmt, 4)?;
        let f = F::Type::check(stmt, 5)?;
        let g = G::Type::check(stmt, 6)?;
        let h = H::Type::check(stmt, 7)?;
        let i = I::Type::check(stmt, 8)?;
        let j = J::Type::check(stmt, 9)?;
        let k = K::Type::check(stmt, 10)?;
        let a = A::from_column(stmt, a)?;
        let b = B::from_column(stmt, b)?;
        let c = C::from_column(stmt, c)?;
        let d = D::from_column(stmt, d)?;
        let e = E::from_column(stmt, e)?;
        let f = F::from_column(stmt, f)?;
        let g = G::from_column(stmt, g)?;
        let h = H::from_column(stmt, h)?;
        let i = I::from_column(stmt, i)?;
        let j = J::from_column(stmt, j)?;
        let k = K::from_column(stmt, k)?;
        Ok((a, b, c, d, e, f, g, h, i, j, k))
    }
}

impl<'stmt, A, B, C, D, E, F, G, H, I, J, K, L> Row<'stmt> for (A, B, C, D, E, F, G, H, I, J, K, L) where A: FromColumn<'stmt>, B: FromColumn<'stmt>, C: FromColumn<'stmt>, D: FromColumn<'stmt>, E: FromColumn<'stmt>, F: FromColumn<'stmt>, G: FromColumn<'stmt>, H: FromColumn<'stmt>, I: FromColumn<'stmt>, J: FromColumn<'stmt>, K: FromColumn<'stmt>, L: FromColumn<'stmt> {
    open spec fn row_result(row: Option<Seq<Cell>>, r: Result<Self, Error>) -> bool {
        if !(admitted::<'stmt, A>(cell_at(row, 0)) && admitted::<'stmt, B>(cell_at(row, 1)) && admitted::<'stmt, C>(cell_at(row, 2)) && admitted::<'stmt, D>(cell_at(row, 3)) && admitted::<'stmt, E>(cell_at(row, 4)) && admitted::<'stmt, F>(cell_at(row, 5)) && admitted::<'stmt, G>(cell_at(row, 6)) && admitted::<'stmt, H>(cell_at(row, 7)) && admitted::<'stmt, I>(cell_at(row, 8)) && admitted::<'stmt, J>(cell_at(row, 9)) && admitted::<'stmt, K>(cell_at(row, 10)) && admitted::<'stmt, L>(cell_at(row, 11))) {
            r matches Err(e) && e.code_spec() == Code::MISMATCH
        } else {
            &&& (r is Ok <==> (A::accepts(cell_at(row, 0)) && B::accepts(cell_at(row, 1)) && C::accepts(cell_at(row, 2)) && D::accepts(cell_at(row, 3)) && E::accepts(cell_at(row, 4)) && F::accepts(cell_at(row, 5)) && G::accepts(cell_at(row, 6)) && H::accepts(cell_at(row, 7)) && I::accepts(cell_at(row, 8)) && J::accepts(cell_at(row, 9)) && K::accepts(cell_at(row, 10)) && L::accepts(cell_at(row, 11))))
            &&& match r {
                Ok((a, b, c, d, e, f, g, h, i, j, k, l)) => read_ok::<'stmt, A>(cell_at(row, 0), a) && read_ok::<'stmt, B>(cell_at(row, 1), b) && read_ok::<'stmt, C>(cell_at(row, 2), c) && read_ok::<'stmt, D>(cell_at(row, 3), d) && read_ok::<'stmt, E>(cell_at(row, 4), e) && read_ok::<'stmt, F>(cell_at(row, 5), f) && read_ok::<'stmt, G>(cell_at(row, 6), g) && read_ok::<'stmt, H>(cell_at(row, 7), h) && read_ok::<'stmt, I>(cell_at(row, 8), i) && read_ok::<'stmt, J>(cell_at(row, 9), j) && read_ok::<'stmt, K>(cell_at(row, 10), k) && read_ok::<'stmt, L>(cell_at(row, 11), l),
                Err(e) => read_err::<'stmt, A>(cell_at(row, 0), e)
                    || (A::accepts(cell_at(row, 0)) && read_err::<'stmt, B>(cell_at(row, 1), e))
                    || (A::accepts(cell_at(row, 0)) && B::accepts(cell_at(row, 1)) && read_err::<'stmt, C>(cell_at(row, 2), e))
                    || (A::accepts(cell_at(row, 0)) && B::accepts(cell_at(row, 1)) && C::accepts(cell_at(row, 2)) && read_err::<'stmt, D>(cell_at(row, 3), e))
                    || (A::accepts(cell_at(row, 0)) && B::accepts(cell_at(row, 1)) && C::accepts(cell_at(row, 2)) && D::accepts(cell_at(row, 3)) && read_err::<'stmt, E>(cell_at(row, 4), e))
                    || (A::accepts(cell_at(row, 0)) && B::accepts(cell_at(row, 1)) && C::accepts(cell_at(row, 2)) && D::accepts(cell_at(row, 3)) && E::accepts(cell_at(row, 4)) && read_err::<'stmt, F>(cell_at(row, 5), e))
                    || (A::accepts(cell_at(row, 0)) && B::accepts(cell_at(row, 1)) && C::accepts(cell_at(row, 2)) && D::accepts(cell_at(row, 3)) && E::accepts(cell_at(row, 4)) && F::accepts(cell_at(row, 5)) && read_err::<'stmt, G>(cell_at(row, 6), e))
                    || (A::accepts(cell_at(row, 0)) && B::accepts(cell_at(row, 1)) && C::accepts(cell_at(row, 2)) && D::accepts(cell_at(row, 3)) && E::accepts(cell_at(row, 4)) && F::accepts(cell_at(row, 5)) && G::accepts(cell_at(row, 6)) && read_err::<'stmt, H>(cell_at(row, 7), e))
                    || (A::accepts(cell_at(row, 0)) && B::accepts(cell_at(row, 1)) && C::accepts(cell_at(row, 2)) && D::accepts(cell_at(row, 3)) && E::accepts(cell_at(row, 4)) && F::accepts(cell_at(row, 5)) && G::accepts(cell_at(row, 6)) && H::accepts(cell_at(row, 7)) && read_err::<'stmt, I>(cell_at(row, 8), e))
                    || (A::accepts(cell_at(row, 0)) && B::accepts(cell_at(row, 1)) && C::accepts(cell_at(row, 2)) && D::accepts(cell_at(row, 3)) && E::accepts(cell_at(row, 4)) && F::accepts(cell_at(row, 5)) && G::accepts(cell_at(row, 6)) && H::accepts(cell_at(row, 7)) && I::accepts(cell_at(row, 8)) && read_err::<'stmt, J>(cell_at(row, 9), e))
                    || (A::accepts(cell_at(row, 0)) && B::accepts(cell_at(row, 1)) && C::accepts(cell_at(row, 2)) && D::accepts(cell_at(row, 3)) && E::accepts(cell_at(row, 4)) && F::accepts(cell_at(row, 5)) && G::accepts(cell_at(row, 6)) && H::accepts(cell_at(row, 7)) && I::accepts(cell_at(row, 8)) && J::accepts(cell_at(row, 9)) && read_err::<'stmt, K>(cell_at(row, 10), e))
                    || (A::accepts(cell_at(row, 0)) && B::accepts(cell_at(row, 1)) && C::accepts(cell_at(row, 2)) && D::accepts(cell_at(row, 3)) && E::accepts(cell_at(row, 4)) && F::accepts(cell_at(row, 5)) && G::accepts(cell_at(row, 6)) && H::accepts(cell_at(row, 7)) && I::accepts(cell_at(row, 8)) && J::accepts(cell_at(row, 9)) && K::accepts(cell_at(row, 10)) && read_err::<'stmt, L>(cell_at(row, 11), e)),
            }
        }
    }

    fn from_row(stmt: &'stmt Statement<'_>) -> (r: Result<Self, Error>) {
        let a = A::Type::check(stmt, 0)?;
        let b = B::Type::check(stmt, 1)?;
        let c = C::Type::check(stmt, 2)?;
        let d = D::Type::check(stmt, 3)?;
        let e = E::Type::check(stmt, 4)?;
        let f = F::Type::check(stmt, 5)?;
        let g = G::Type::check(stmt, 6)?;
        let h = H::Type::check(stmt, 7)?;
        let i = I::Type::check(stmt, 8)?;
        let j = J::Type::check(stmt, 9)?;
        let k = K::Type::check(stmt, 10)?;
        let l = L::Type::check(stmt, 11)?;
        let a = A::from_column(stmt, a)?;
        let b = B::from_column(stmt, b)?;
        let c = C::from_column(stmt, c)?;
        let d = D::from_column(stmt, d)?;
        let e = E::from_column(stmt, e)?;
        let f = F::from_column(stmt, f)?;
        let g = G::from_column(stmt, g)?;
        let h = H::from_column(stmt, h)?;
        let i = I::from_column(stmt, i)?;
        let j = J::from_column(stmt, j)?;
        let k = K::from_column(stmt, k)?;
        let l = L::from_column(stmt, l)?;
        Ok((a, b, c, d, e, f, g, h, i, j, k, l))
    }
}

impl<'stmt, A, B, C, D, E, F, G, H, I, J, K, L, M> Row<'stmt> for (A, B, C, D, E, F, G, H, I, J, K, L, M) where A: FromColumn<'stmt>, B: FromColumn<'stmt>, C: FromColumn<'stmt>, D: FromColumn<'stmt>, E: FromColumn<'stmt>, F: FromColumn<'stmt>, G: FromColumn<'stmt>, H: FromColumn<'stmt>, I: FromColumn<'stmt>, J: FromColumn<'stmt>, K: FromColumn<'stmt>, L: FromColumn<'stmt>, M: FromColumn<'stmt> {
    open spec fn row_result(row: Option<Seq<Cell>>, r: Result<Self, Error>) -> bool {
        if !(admitted::<'stmt, A>(cell_at(row, 0)) && admitted::<'stmt, B>(cell_at(row, 1)) && admitted::<'stmt, C>(cell_at(row, 2)) && admitted::<'stmt, D>(cell_at(row, 3)) && admitted::<'stmt, E>(cell_at(row, 4)) && admitted::<'stmt, F>(cell_at(row, 5)) && admitted::<'stmt, G>(cell_at(row, 6)) && admitted::<'stmt, H>(cell_at(row, 7)) && admitted::<'stmt, I>(cell_at(row, 8)) && admitted::<'stmt, J>(cell_at(row, 9)) && admitted::<'stmt, K>(cell_at(row, 10)) && admitted::<'stmt, L>(cell_at(row, 11)) && admitted::<'stmt, M>(cell_at(row, 12))) {
            r matches Err(e) && e.code_spec() == Code::MISMATCH
        } else {
            &&& (r is Ok <==> (A::accepts(cell_at(row, 0)) && B::accepts(cell_at(row, 1)) && C::accepts(cell_at(row, 2)) && D::accepts(cell_at(row, 3)) && E::accepts(cell_at(row, 4)) && F::accepts(cell_at(row, 5)) && G::accepts(cell_at(row, 6)) && H::accepts(cell_at(row, 7)) && I::accepts(cell_at(row, 8)) && J::accepts(cell_at(row, 9)) && K::accepts(cell_at(row, 10)) && L::accepts(cell_at(row, 11)) && M::accepts(cell_at(row, 12))))
            &&& match r {
                Ok((a, b, c, d, e, f, g, h, i, j, k, l, m)) => read_ok::<'stmt, A>(cell_at(row, 0), a) && read_ok::<'stmt, B>(cell_at(row, 1), b) && read_ok::<'stmt, C>(cell_at(row, 2), c) && read_ok::<'stmt, D>(cell_at(row, 3), d) && read_ok::<'stmt, E>(cell_at(row, 4), e) && read_ok::<'stmt, F>(cell_at(row, 5), f) && read_ok::<'stmt, G>(cell_at(row, 6), g) && read_ok::<'stmt, H>(cell_at(row, 7), h) && read_ok::<'stmt, I>(cell_at(row, 8), i) && read_ok::<'stmt, J>(cell_at(row, 9), j) && read_ok::<'stmt, K>(cell_at(row, 10), k) && read_ok::<'stmt, L>(cell_at(row, 11), l) && read_ok::<'stmt, M>(cell_at(row, 12), m),
                Err(e) => read_err::<'stmt, A>(cell_at(row, 0), e)
                    || (A::accepts(cell_at(row, 0)) && read_err::<'stmt, B>(cell_at(row, 1), e))
                    || (A::accepts(cell_at(row, 0)) && B::accepts(cell_at(row, 1)) && read_err::<'stmt, C>(cell_at(row, 2), e))
                    || (A::accepts(cell_at(row, 0)) && B::accepts(cell_at(row, 1)) && C::accepts(cell_at(row, 2)) && read_err::<'stmt, D>(cell_at(row, 3), e))
                    || (A::accepts(cell_at(row, 0)) && B::accepts(cell_at(row, 1)) && C::accepts(cell_at(row, 2)) && D::accepts(cell_at(row, 3)) && read_err::<'stmt, E>(cell_at(row, 4), e))
                    || (A::accepts(cell_at(row, 0)) && B::accepts(cell_at(row, 1)) && C::accepts(cell_at(row, 2)) && D::accepts(cell_at(row, 3)) && E::accepts(cell_at(row, 4)) && read_err::<'stmt, F>(cell_at(row, 5), e))
                    || (A::accepts(cell_at(row, 0)) && B::accepts(cell_at(row, 1)) && C::accepts(cell_at(row, 2)) && D::accepts(cell_at(row, 3)) && E::accepts(cell_at(row, 4)) && F::accepts(cell_at(row, 5)) && read_err::<'stmt, G>(cell_at(row, 6), e))
                    || (A::accepts(cell_at(row, 0)) && B::accepts(cell_at(row, 1)) && C::accepts(cell_at(row, 2)) && D::accepts(cell_at(row, 3)) && E::accepts(cell_at(row, 4)) && F::accepts(cell_at(row, 5)) && G::accepts(cell_at(row, 6)) && read_err::<'stmt, H>(cell_at(row, 7), e))
                    || (A::accepts(cell_at(row, 0)) && B::accepts(cell_at(row, 1)) && C::accepts(cell_at(row, 2)) && D::accepts(cell_at(row, 3)) && E::accepts(cell_at(row, 4)) && F::accepts(cell_at(row, 5)) && G::accepts(cell_at(row, 6)) && H::accepts(cell_at(row, 7)) && read_err::<'stmt, I>(cell_at(row, 8), e))
                    || (A::accepts(cell_at(row, 0)) && B::accepts(cell_at(row, 1)) && C::accepts(cell_at(row, 2)) && D::accepts(cell_at(row, 3)) && E::accepts(cell_at(row, 4)) && F::accepts(cell_at(row, 5)) && G::accepts(cell_at(row, 6)) && H::accepts(cell_at(row, 7)) && I::accepts(cell_at(row, 8)) && read_err::<'stmt, J>(cell_at(row, 9), e))
                    || (A::accepts(cell_at(row, 0)) && B::accepts(cell_at(row, 1)) && C::accepts(cell_at(row, 2)) && D::accepts(cell_at(row, 3)) && E::accepts(cell_at(row, 4)) && F::accepts(cell_at(row, 5)) && G::accepts(cell_at(row, 6)) && H::accepts(cell_at(row, 7)) && I::accepts(cell_at(row, 8)) && J::accepts(cell_at(row, 9)) && read_err::<'stmt, K>(cell_at(row, 10), e))
                    || (A::accepts(cell_at(row, 0)) && B::accepts(cell_at(row, 1)) && C::accepts(cell_at(row, 2)) && D::accepts(cell_at(row, 3)) && E::accepts(cell_at(row, 4)) && F::accepts(cell_at(row, 5)) && G::accepts(cell_at(row, 6)) && H::accepts(cell_at(row, 7)) && I::accepts(cell_at(row, 8)) && J::accepts(cell_at(row, 9)) && K::accepts(cell_at(row, 10)) && read_err::<'stmt, L>(cell_at(row, 11), e))
                    || (A::accepts(cell_at(row, 0)) && B::accepts(cell_at(row, 1)) && C::accepts(cell_at(row, 2)) && D::accepts(cell_at(row, 3)) && E::accepts(cell_at(row, 4)) && F::accepts(cell_at(row, 5)) && G::accepts(cell_at(row, 6)) && H::accepts(cell_at(row, 7)) && I::accepts(cell_at(row, 8)) && J::accepts(cell_at(row, 9)) && K::accepts(cell_at(row, 10)) && L::accepts(cell_at(row, 11)) && read_err::<'stmt, M>(cell_at(row, 12), e)),
            }
        }
    }

    fn from_row(stmt: &'stmt Statement<'_>) -> (r: Result<Self, Error>) {
        let a = A::Type::check(stmt, 0)?;
        let b = B::Type::check(stmt, 1)?;
        let c = C::Type::check(stmt, 2)?;
        let d = D::Type::check(stmt, 3)?;
        let e = E::Type::check(stmt, 4)?;
        let f = F::Type::check(stmt, 5)?;
        let g = G::Type::check(stmt, 6)?;
        let h = H::Type::check(stmt, 7)?;
        let i = I::Type::check(stmt, 8)?;
        let j = J::Type::check(stmt, 9)?;
        let k = K::Type::check(stmt, 10)?;
        let l = L::Type::check(stmt, 11)?;
        let m = M::Type::check(stmt, 12)?;
        let a = A::from_column(stmt, a)?;
        let b = B::from_column(stmt, b)?;
        let c = C::from_column(stmt, c)?;
        let d = D::from_column(stmt, d)?;
        let e = E::from_column(stmt, e)?;
        let f = F::from_column(stmt, f)?;
        let g = G::from_column(stmt, g)?;
        let h = H::from_column(stmt, h)?;
        let i = I::from_column(stmt, i)?;
        let j = J::from_column(stmt, j)?;
        let k = K::from_column(stmt, k)?;
        let l = L::from_column(stmt, l)?;
        let m = M::from_column(stmt, m)?;
        Ok((a, b, c, d, e, f, g, h, i, j, k, l, m))
    }
}

impl<'stmt, A, B, C, D, E, F, G, H, I, J, K, L, M, N> Row<'stmt> for (A, B, C, D, E, F, G, H, I, J, K, L, M, N) where A: FromColumn<'stmt>, B: FromColumn<'stmt>, C: FromColumn<'stmt>, D: FromColumn<'stmt>, E: FromColumn<'stmt>, F: FromColumn<'stmt>, G: FromColumn<'stmt>, H: FromColumn<'stmt>, I: FromColumn<'stmt>, J: FromColumn<'stmt>, K: FromColumn<'stmt>, L: FromColumn<'stmt>, M: FromColumn<'stmt>, N: FromColumn<'stmt> {
    open spec fn row_result(row: Option<Seq<Cell>>, r: Result<Self, Error>) -> bool {
        if !(admitted::<'stmt, A>(cell_at(row, 0)) && admitted::<'stmt, B>(cell_at(row, 1)) && admitted::<'stmt, C>(cell_at(row, 2)) && admitted::<'stmt, D>(cell_at(row, 3)) && admitted::<'stmt, E>(cell_at(row, 4)) && admitted::<'stmt, F>(cell_at(row, 5)) && admitted::<'stmt, G>(cell_at(row, 6)) && admitted::<'stmt, H>(cell_at(row, 7)) && admitted::<'stmt, I>(cell_at(row, 8)) && admitted::<'stmt, J>(cell_at(row, 9)) && admitted::<'stmt, K>(cell_at(row, 10)) && admitted::<'stmt, L>(cell_at(row, 11)) && admitted::<'stmt, M>(cell_at(row, 12)) && admitted::<'stmt, N>(cell_at(row, 13))) {
            r matches Err(e) && e.code_spec() == Code::MISMATCH
        } else {
            &&& (r is Ok <==> (A::accepts(cell_at(row, 0)) && B::accepts(cell_at(row, 1)) && C::accepts(cell_at(row, 2)) && D::accepts(cell_at(row, 3)) && E::accepts(cell_at(row, 4)) && F::accepts(cell_at(row, 5)) && G::accepts(cell_at(row, 6)) && H::accepts(cell_at(row, 7)) && I::accepts(cell_at(row, 8)) && J::accepts(cell_at(row, 9)) && K::accepts(cell_at(row, 10)) && L::accepts(cell_at(row, 11)) && M::accepts(cell_at(row, 12)) && N::accepts(cell_at(row, 13))))
            &&& match r {
                Ok((a, b, c, d, e, f, g, h, i, j, k, l, m, n)) => read_ok::<'stmt, A>(cell_at(row, 0), a) && read_ok::<'stmt, B>(cell_at(row, 1), b) && read_ok::<'stmt, C>(cell_at(row, 2), c) && read_ok::<'stmt, D>(cell_at(row, 3), d) && read_ok::<'stmt, E>(cell_at(row, 4), e) && read_ok::<'stmt, F>(cell_at(row, 5), f) && read_ok::<'stmt, G>(cell_at(row, 6), g) && read_ok::<'stmt, H>(cell_at(row, 7), h) && read_ok::<'stmt, I>(cell_at(row, 8), i) && read_ok::<'stmt, J>(cell_at(row, 9), j) && read_ok::<'stmt, K>(cell_at(row, 10), k) && read_ok::<'stmt, L>(cell_at(row, 11), l) && read_ok::<'stmt, M>(cell_at(row, 12), m) && read_ok::<'stmt, N>(cell_at(row, 13), n),
                Err(e) => read_err::<'stmt, A>(cell_at(row, 0), e)
                    || (A::accepts(cell_at(row, 0)) && read_err::<'stmt, B>(cell_at(row, 1), e))
                    || (A::accepts(cell_at(row, 0)) && B::accepts(cell_at(row, 1)) && read_err::<'stmt, C>(cell_at(row, 2), e))
                    || (A::accepts(cell_at(row, 0)) && B::accepts(cell_at(row, 1)) && C::accepts(cell_at(row, 2)) && read_err::<'stmt, D>(cell_at(row, 3), e))
                    || (A::accepts(cell_at(row, 0)) && B::accepts(cell_at(row, 1)) && C::accepts(cell_at(row, 2)) && D::accepts(cell_at(row, 3)) && read_err::<'stmt, E>(cell_at(row, 4), e))
                    || (A::accepts(cell_at(row, 0)) && B::accepts(cell_at(row, 1)) && C::accepts(cell_at(row, 2)) && D::accepts(cell_at(row, 3)) && E::accepts(cell_at(row, 4)) && read_err::<'stmt, F>(cell_at(row, 5), e))
                    || (A::accepts(cell_at(row, 0)) && B::accepts(cell_at(row, 1)) && C::accepts(cell_at(row, 2)) && D::accepts(cell_at(row, 3)) && E::accepts(cell_at(row, 4)) && F::accepts(cell_at(row, 5)) && read_err::<'stmt, G>(cell_at(row, 6), e))
                    || (A::accepts(cell_at(row, 0)) && B::accepts(cell_at(row, 1)) && C::accepts(cell_at(row, 2)) && D::accepts(cell_at(row, 3)) && E::accepts(cell_at(row, 4)) && F::accepts(cell_at(row, 5)) && G::accepts(cell_at(row, 6)) && read_err::<'stmt, H>(cell_at(row, 7), e))
                    || (A::accepts(cell_at(row, 0)) && B::accepts(cell_at(row, 1)) && C::accepts(cell_at(row, 2)) && D::accepts(cell_at(row, 3)) && E::accepts(cell_at(row, 4)) && F::accepts(cell_at(row, 5)) && G::accepts(cell_at(row, 6)) && H::accepts(cell_at(row, 7)) && read_err::<'stmt, I>(cell_at(row, 8), e))
                    || (A::accepts(cell_at(row, 0)) && B::accepts(cell_at(row, 1)) && C::accepts(cell_at(row, 2)) && D::accepts(cell_at(row, 3)) && E::accepts(cell_at(row, 4)) && F::accepts(cell_at(row, 5)) && G::accepts(cell_at(row, 6)) && H::accepts(cell_at(row, 7)) && I::accepts(cell_at(row, 8)) && read_err::<'stmt, J>(cell_at(row, 9), e))
                    || (A::accepts(cell_at(row, 0)) && B::accepts(cell_at(row, 1)) && C::accepts(cell_at(row, 2)) && D::accepts(cell_at(row, 3)) && E::accepts(cell_at(row, 4)) && F::accepts(cell_at(row, 5)) && G::accepts(cell_at(row, 6)) && H::accepts(cell_at(row, 7)) && I::accepts(cell_at(row, 8)) && J::accepts(cell_at(row, 9)) && read_err::<'stmt, K>(cell_at(row, 10), e))
                    || (A::accepts(cell_at(row, 0)) && B::accepts(cell_at(row, 1)) && C::accepts(cell_at(row, 2)) && D::accepts(cell_at(row, 3)) && E::accepts(cell_at(row, 4)) && F::accepts(cell_at(row, 5)) && G::accepts(cell_at(row, 6)) && H::accepts(cell_at(row, 7)) && I::accepts(cell_at(row, 8)) && J::accepts(cell_at(row, 9)) && K::accepts(cell_at(row, 10)) && read_err::<'stmt, L>(cell_at(row, 11), e))
                    || (A::accepts(cell_at(row, 0)) && B::accepts(cell_at(row, 1)) && C::accepts(cell_at(row, 2)) && D::accepts(cell_at(row, 3)) && E::accepts(cell_at(row, 4)) && F::accepts(cell_at(row, 5)) && G::accepts(cell_at(row, 6)) && H::accepts(cell_at(row, 7)) && I::accepts(cell_at(row, 8)) && J::accepts(cell_at(row, 9)) && K::accepts(cell_at(row, 10)) && L::accepts(cell_at(row, 11)) && read_err::<'stmt, M>(cell_at(row, 12), e))
                    || (A::accepts(cell_at(row, 0)) && B::accepts(cell_at(row, 1)) && C::accepts(cell_at(row, 2)) && D::accepts(cell_at(row, 3)) && E::accepts(cell_at(row, 4)) && F::accepts(cell_at(row, 5)) && G::accepts(cell_at(row, 6)) && H::accepts(cell_at(row, 7)) && I::accepts(cell_at(row, 8)) && J::accepts(cell_at(row, 9)) && K::accepts(cell_at(row, 10)) && L::accepts(cell_at(row, 11)) && M::accepts(cell_at(row, 12)) && read_err::<'stmt, N>(cell_at(row, 13), e)),
            }
        }
    }

    fn from_row(stmt: &'stmt Statement<'_>) -> (r: Result<Self, Error>) {
        let a = A::Type::check(stmt, 0)?;
        let b = B::Type::check(stmt, 1)?;
        let c = C::Type::check(stmt, 2)?;
        let d = D::Type::check(stmt, 3)?;
        let e = E::Type::check(stmt, 4)?;
        let f = F::Type::check(stmt, 5)?;
        let g = G::Type::check(stmt, 6)?;
        let h = H::Type::check(stmt, 7)?;
        let i = I::Type::check(stmt, 8)?;
        let j = J::Type::check(stmt, 9)?;
        let k = K::Type::check(stmt, 10)?;
        let l = L::Type::check(stmt, 11)?;
        let m = M::Type::check(stmt, 12)?;
        let n = N::Type::check(stmt, 13)?;
        let a = A::from_column(stmt, a)?;
        let b = B::from_column(stmt, b)?;
        let c = C::from_column(stmt, c)?;
        let d = D::from_column(stmt, d)?;
        let e = E::from_column(stmt, e)?;
        let f = F::from_column(stmt, f)?;
        let g = G::from_column(stmt, g)?;
        let h = H::from_column(stmt, h)?;
        let i = I::from_column(stmt, i)?;
        let j = J::from_column(stmt, j)?;
        let k = K::from_column(stmt, k)?;
        let l = L::from_column(stmt, l)?;
        let m = M::from_column(stmt, m)?;
        let n = N::from_column(stmt, n)?;
        Ok((a, b, c, d, e, f, g, h, i, j, k, l, m, n))
    }
}

impl<'stmt, A, B, C, D, E, F, G, H, I, J, K, L, M, N, O> Row<'stmt> for (A, B, C, D, E, F, G, H, I, J, K, L, M, N, O) where A: FromColumn<'stmt>, B: FromColumn<'stmt>, C: FromColumn<'stmt>, D: FromColumn<'stmt>, E: FromColumn<'stmt>, F: FromColumn<'stmt>, G: FromColumn<'stmt>, H: FromColumn<'stmt>, I: FromColumn<'stmt>, J: FromColumn<'stmt>, K: FromColumn<'stmt>, L: FromColumn<'stmt>, M: FromColumn<'stmt>, N: FromColumn<'stmt>, O: FromColumn<'stmt> {
    open spec fn row_result(row: Option<Seq<Cell>>, r: Result<Self, Error>) -> bool {
        if !(admitted::<'stmt, A>(cell_at(row, 0)) && admitted::<'stmt, B>(cell_at(row, 1)) && admitted::<'stmt, C>(cell_at(row, 2)) && admitted::<'stmt, D>(cell_at(row, 3)) && admitted::<'stmt, E>(cell_at(row, 4)) && admitted::<'stmt, F>(cell_at(row, 5)) && admitted::<'stmt, G>(cell_at(row, 6)) && admitted::<'stmt, H>(cell_at(row, 7)) && admitted::<'stmt, I>(cell_at(row, 8)) && admitted::<'stmt, J>(cell_at(row, 9)) && admitted::<'stmt, K>(cell_at(row, 10)) && admitted::<'stmt, L>(cell_at(row, 11)) && admitted::<'stmt, M>(cell_at(row, 12)) && admitted::<'stmt, N>(cell_at(row, 13)) && admitted::<'stmt, O>(cell_at(row, 14))) {
            r matches Err(e) && e.code_spec() == Code::MISMATCH
        } else {
            &&& (r is Ok <==> (A::accepts(cell_at(row, 0)) && B::accepts(cell_at(row, 1)) && C::accepts(cell_at(row, 2)) && D::accepts(cell_at(row, 3)) && E::accepts(cell_at(row, 4)) && F::accepts(cell_at(row, 5)) && G::accepts(cell_at(row, 6)) && H::accepts(cell_at(row, 7)) && I::accepts(cell_at(row, 8)) && J::accepts(cell_at(row, 9)) && K::accepts(cell_at(row, 10)) && L::accepts(cell_at(row, 11)) && M::accepts(cell_at(row, 12)) && N::accepts(cell_at(row, 13)) && O::accepts(cell_at(row, 14))))
            &&& match r {
                Ok((a, b, c, d, e, f, g, h, i, j, k, l, m, n, o)) => read_ok::<'stmt, A>(cell_at(row, 0), a) && read_ok::<'stmt, B>(cell_at(row, 1), b) && read_ok::<'stmt, C>(cell_at(row, 2), c) && read_ok::<'stmt, D>(cell_at(row, 3), d) && read_ok::<'stmt, E>(cell_at(row, 4), e) && read_ok::<'stmt, F>(cell_at(row, 5), f) && read_ok::<'stmt, G>(cell_at(row, 6), g) && read_ok::<'stmt, H>(cell_at(row, 7), h) && read_ok::<'stmt, I>(cell_at(row, 8), i) && read_ok::<'stmt, J>(cell_at(row, 9), j) && read_ok::<'stmt, K>(cell_at(row, 10), k) && read_ok::<'stmt, L>(cell_at(row, 11), l) && read_ok::<'stmt, M>(cell_at(row, 12), m) && read_ok::<'stmt, N>(cell_at(row, 13), n) && read_ok::<'stmt, O>(cell_at(row, 14), o),
                Err(e) => read_err::<'stmt, A>(cell_at(row, 0), e)
                    || (A::accepts(cell_at(row, 0)) && read_err::<'stmt, B>(cell_at(row, 1), e))
                    || (A::accepts(cell_at(row, 0)) && B::accepts(cell_at(row, 1)) && read_err::<'stmt, C>(cell_at(row, 2), e))
                    || (A::accepts(cell_at(row, 0)) && B::accepts(cell_at(row, 1)) && C::accepts(cell_at(row, 2)) && read_err::<'stmt, D>(cell_at(row, 3), e))
                    || (A::accepts(cell_at(row, 0)) && B::accepts(cell_at(row, 1)) && C::accepts(cell_at(row, 2)) && D::accepts(cell_at(row, 3)) && read_err::<'stmt, E>(cell_at(row, 4), e))
                    || (A::accepts(cell_at(row, 0)) && B::accepts(cell_at(row, 1)) && C::accepts(cell_at(row, 2)) && D::accepts(cell_at(row, 3)) && E::accepts(cell_at(row, 4)) && read_err::<'stmt, F>(cell_at(row, 5), e))
                    || (A::accepts(cell_at(row, 0)) && B::accepts(cell_at(row, 1)) && C::accepts(cell_at(row, 2)) && D::accepts(cell_at(row, 3)) && E::accepts(cell_at(row, 4)) && F::accepts(cell_at(row, 5)) && read_err::<'stmt, G>(cell_at(row, 6), e))
                    || (A::accepts(cell_at(row, 0)) && B::accepts(cell_at(row, 1)) && C::accepts(cell_at(row, 2)) && D::accepts(cell_at(row, 3)) && E::accepts(cell_at(row, 4)) && F::accepts(cell_at(row, 5)) && G::accepts(cell_at(row, 6)) && read_err::<'stmt, H>(cell_at(row, 7), e))
                    || (A::accepts(cell_at(row, 0)) && B::accepts(cell_at(row, 1)) && C::accepts(cell_at(row, 2)) && D::accepts(cell_at(row, 3)) && E::accepts(cell_at(row, 4)) && F::accepts(cell_at(row, 5)) && G::accepts(cell_at(row, 6)) && H::accepts(cell_at(row, 7)) && read_err::<'stmt, I>(cell_at(row, 8), e))
                    || (A::accepts(cell_at(row, 0)) && B::accepts(cell_at(row, 1)) && C::accepts(cell_at(row, 2)) && D::accepts(cell_at(row, 3)) && E::accepts(cell_at(row, 4)) && F::accepts(cell_at(row, 5)) && G::accepts(cell_at(row, 6)) && H::accepts(cell_at(row, 7)) && I::accepts(cell_at(row, 8)) && read_err::<'stmt, J>(cell_at(row, 9), e))
                    || (A::accepts(cell_at(row, 0)) && B::accepts(cell_at(row, 1)) && C::accepts(cell_at(row, 2)) && D::accepts(cell_at(row, 3)) && E::accepts(cell_at(row, 4)) && F::accepts(cell_at(row, 5)) && G::accepts(cell_at(row, 6)) && H::accepts(cell_at(row, 7)) && I::accepts(cell_at(row, 8)) && J::accepts(cell_at(row, 9)) && read_err::<'stmt, K>(cell_at(row, 10), e))
                    || (A::accepts(cell_at(row, 0)) && B::accepts(cell_at(row, 1)) && C::accepts(cell_at(row, 2)) && D::accepts(cell_at(row, 3)) && E::accepts(cell_at(row, 4)) && F::accepts(cell_at(row, 5)) && G::accepts(cell_at(row, 6)) && H::accepts(cell_at(row, 7)) && I::accepts(cell_at(row, 8)) && J::accepts(cell_at(row, 9)) && K::accepts(cell_at(row, 10)) && read_err::<'stmt, L>(cell_at(row, 11), e))
                    || (A::accepts(cell_at(row, 0)) && B::accepts(cell_at(row, 1)) && C::accepts(cell_at(row, 2)) && D::accepts(cell_at(row, 3)) && E::accepts(cell_at(row, 4)) && F::accepts(cell_at(row, 5)) && G::accepts(cell_at(row, 6)) && H::accepts(cell_at(row, 7)) && I::accepts(cell_at(row, 8)) && J::accepts(cell_at(row, 9)) && K::accepts(cell_at(row, 10)) && L::accepts(cell_at(row, 11)) && read_err::<'stmt, M>(cell_at(row, 12), e))
                    || (A::accepts(cell_at(row, 0)) && B::accepts(cell_at(row, 1)) && C::accepts(cell_at(row, 2)) && D::accepts(cell_at(row, 3)) && E::accepts(cell_at(row, 4)) && F::accepts(cell_at(row, 5)) && G::accepts(cell_at(row, 6)) && H::accepts(cell_at(row, 7)) && I::accepts(cell_at(row, 8)) && J::accepts(cell_at(row, 9)) && K::accepts(cell_at(row, 10)) && L::accepts(cell_at(row, 11)) && M::accepts(cell_at(row, 12)) && read_err::<'stmt, N>(cell_at(row, 13), e))
                    || (A::accepts(cell_at(row, 0)) && B::accepts(cell_at(row, 1)) && C::accepts(cell_at(row, 2)) && D::accepts(cell_at(row, 3)) && E::accepts(cell_at(row, 4)) && F::accepts(cell_at(row, 5)) && G::accepts(cell_at(row, 6)) && H::accepts(cell_at(row, 7)) && I::accepts(cell_at(row, 8)) && J::accepts(cell_at(row, 9)) && K::accepts(cell_at(row, 10)) && L::accepts(cell_at(row, 11)) && M::accepts(cell_at(row, 12)) && N::accepts(cell_at(row, 13)) && read_err::<'stmt, O>(cell_at(row, 14), e)),
            }
        }
    }

    fn from_row(stmt: &'stmt Statement<'_>) -> (r: Result<Self, Error>) {
        let a = A::Type::check(stmt, 0)?;
        let b = B::Type::check(stmt, 1)?;
        let c = C::Type::check(stmt, 2)?;
        let d = D::Type::check(stmt, 3)?;
        let e = E::Type::check(stmt, 4)?;
        let f = F::Type::check(stmt, 5)?;
        let g = G::Type::check(stmt, 6)?;
        let h = H::Type::check(stmt, 7)?;
        let i = I::Type::check(stmt, 8)?;
        let j = J::Type::check(stmt, 9)?;
        let k = K::Type::check(stmt, 10)?;
        let l = L::Type::check(stmt, 11)?;
        let m = M::Type::check(stmt, 12)?;
        let n = N::Type::check(stmt, 13)?;
        let o = O::Type::check(stmt, 14)?;
        let a = A::from_column(stmt, a)?;
        let b = B::from_column(stmt, b)?;
        let c = C::from_column(stmt, c)?;
        let d = D::from_column(stmt, d)?;
        let e = E::from_column(stmt, e)?;
        let f = F::from_column(stmt, f)?;
        let g = G::from_column(stmt, g)?;
        let h = H::from_column(stmt, h)?;
        let i = I::from_column(stmt, i)?;
        let j = J::from_column(stmt, j)?;
        let k = K::from_column(stmt, k)?;
        let l = L::from_column(stmt, l)?;
        let m = M::from_column(stmt, m)?;
        let n = N::from_column(stmt, n)?;
        let o = O::from_column(stmt, o)?;
        Ok((a, b, c, d, e, f, g, h, i, j, k, l, m, n, o))
    }
}

} // verus!
