//! Binding Rust values to the parameters of a statement.

use vstd::prelude::*;
use vstd::string::StringSliceAdditionalSpecFns;
use vstd::utf8::encode_utf8;

use crate::code::Code;
use crate::error::Error;
use crate::fixed::{FixedBlob, FixedText};
use crate::statement::{after_failed_bind, Statement};
use crate::text::{decimal, push_decimal, push_signed_decimal, signed_decimal};
use crate::value::{Cell, Null};

verus! {

/// The index of the parameter that a single value is bound to by `Bind`.
pub const BIND_INDEX: i32 = 1;

/// The largest text or blob, in bytes, that can be handed to SQLite.
pub const MAX_ALLOCATION: usize = 0x7fff_ffff;

/// The message of a text or blob too large to hand to SQLite.
pub open spec fn allocation_message(len: nat) -> Seq<char> {
    "allocation size "@ + decimal(len) + " exceeds addressable memory"@
}

/// The message of an integer that SQLite cannot store.
pub open spec fn integer_range_message(value: int) -> Seq<char> {
    "value "@ + signed_decimal(value) + " cannot be converted to sqlite integer"@
}

/// What binding `bytes` as a text or blob hands to SQLite: `None` when it
/// is too large, and the cell `make(bytes)` otherwise.
pub open spec fn sized_cell(bytes: Seq<u8>, cell: Cell) -> Option<Cell> {
    if bytes.len() <= MAX_ALLOCATION {
        Some(cell)
    } else {
        None
    }
}

/// Whether `e` is the error for a text or blob of `len` bytes that is too
/// large.
pub open spec fn is_allocation_error(len: nat, e: Error) -> bool {
    e.code_spec() == Code::ERROR && e.message_spec() == allocation_message(len)
}

/// Whether `value` fits in the integers that SQLite stores.
pub open spec fn fits_i64(value: int) -> bool {
    i64::MIN <= value <= i64::MAX
}

/// What binding an integer hands to SQLite: `None` when it does not fit.
pub open spec fn integer_cell(value: int) -> Option<Cell> {
    if fits_i64(value) {
        Some(Cell::Integer(value as i64))
    } else {
        None
    }
}

/// Whether `e` is the error for an integer that does not fit.
pub open spec fn is_integer_error(value: int, e: Error) -> bool {
    e.code_spec() == Code::MISMATCH && e.message_spec() == integer_range_message(value)
}

/// A value that can be bound to a parameter of a statement.
pub trait BindValue {
    /// The value that binding hands to SQLite, or `None` when the value is
    /// refused before it reaches SQLite.
    spec fn bound_cell(&self) -> Option<Cell>;

    /// Whether `e` is the error with which the value is refused.
    spec fn refused_with(&self, e: Error) -> bool;

    /// Bind this value to parameter `index`; the first parameter has index
    /// 1. SQLite rejects an index out of range with `RANGE`.
    fn bind_value(&self, stmt: &mut Statement<'_>, index: i32) -> (r: Result<(), Error>)
        ensures
            final(stmt).current_row() == old(stmt).current_row(),
            final(stmt).last_step() == old(stmt).last_step(),
            match self.bound_cell() {
                Some(c) => if r is Ok {
                    final(stmt).bindings() == old(stmt).bindings().insert(index, c)
                } else {
                    after_failed_bind(old(stmt).bindings(), final(stmt).bindings(), index)
                },
                None => r matches Err(e) && self.refused_with(e) && final(stmt).bindings()
                    == old(stmt).bindings(),
            },
    ;
}

impl<'a, T: BindValue + ?Sized> BindValue for &'a T {
    open spec fn bound_cell(&self) -> Option<Cell> {
        (**self).bound_cell()
    }

    open spec fn refused_with(&self, e: Error) -> bool {
        (**self).refused_with(e)
    }

    fn bind_value(&self, stmt: &mut Statement<'_>, index: i32) -> (r: Result<(), Error>) {
        (**self).bind_value(stmt, index)
    }
}

impl<T: BindValue + ?Sized> BindValue for Box<T> {
    open spec fn bound_cell(&self) -> Option<Cell> {
        (**self).bound_cell()
    }

    open spec fn refused_with(&self, e: Error) -> bool {
        (**self).refused_with(e)
    }

    fn bind_value(&self, stmt: &mut Statement<'_>, index: i32) -> (r: Result<(), Error>) {
        (**self).bind_value(stmt, index)
    }
}

impl BindValue for Null {
    open spec fn bound_cell(&self) -> Option<Cell> {
        Some(Cell::Null)
    }

    open spec fn refused_with(&self, e: Error) -> bool {
        false
    }

    fn bind_value(&self, stmt: &mut Statement<'_>, index: i32) -> (r: Result<(), Error>) {
        stmt.bind_null(index)
    }
}

/// The error for a text or blob of `len` bytes that is too large.
fn allocation_error(len: usize) -> (e: Error)
    ensures
        is_allocation_error(len as nat, e),
{
    let mut m = String::from_str("allocation size ");
    push_decimal(&mut m, len as u128);
    m.append(" exceeds addressable memory");
    Error::with_message(Code::ERROR, m)
}

/// The error for an integer that does not fit.
fn integer_error_signed(value: i128) -> (e: Error)
    ensures
        is_integer_error(value as int, e),
{
    let mut m = String::from_str("value ");
    push_signed_decimal(&mut m, value);
    m.append(" cannot be converted to sqlite integer");
    Error::with_message(Code::MISMATCH, m)
}

/// The error for an unsigned integer that does not fit.
fn integer_error_unsigned(value: u128) -> (e: Error)
    ensures
        is_integer_error(value as int, e),
{
    let mut m = String::from_str("value ");
    push_decimal(&mut m, value);
    m.append(" cannot be converted to sqlite integer");
    Error::with_message(Code::MISMATCH, m)
}

impl BindValue for [u8] {
    open spec fn bound_cell(&self) -> Option<Cell> {
        sized_cell(self@, Cell::Blob(self@))
    }

    open spec fn refused_with(&self, e: Error) -> bool {
        is_allocation_error(self@.len(), e)
    }

    fn bind_value(&self, stmt: &mut Statement<'_>, index: i32) -> (r: Result<(), Error>) {
        if self.len() > MAX_ALLOCATION {
            return Err(allocation_error(self.len()));
        }
        stmt.bind_blob(index, self)
    }
}

impl BindValue for Vec<u8> {
    open spec fn bound_cell(&self) -> Option<Cell> {
        sized_cell(self@, Cell::Blob(self@))
    }

    open spec fn refused_with(&self, e: Error) -> bool {
        is_allocation_error(self@.len(), e)
    }

    fn bind_value(&self, stmt: &mut Statement<'_>, index: i32) -> (r: Result<(), Error>) {
        self.as_slice().bind_value(stmt, index)
    }
}

impl<const N: usize> BindValue for [u8; N] {
    open spec fn bound_cell(&self) -> Option<Cell> {
        sized_cell(self@, Cell::Blob(self@))
    }

    open spec fn refused_with(&self, e: Error) -> bool {
        is_allocation_error(self@.len(), e)
    }

    fn bind_value(&self, stmt: &mut Statement<'_>, index: i32) -> (r: Result<(), Error>) {
        self.as_slice().bind_value(stmt, index)
    }
}

impl<const N: usize> BindValue for FixedBlob<N> {
    open spec fn bound_cell(&self) -> Option<Cell> {
        sized_cell(self@, Cell::Blob(self@))
    }

    open spec fn refused_with(&self, e: Error) -> bool {
        is_allocation_error(self@.len(), e)
    }

    fn bind_value(&self, stmt: &mut Statement<'_>, index: i32) -> (r: Result<(), Error>) {
        self.as_slice().bind_value(stmt, index)
    }
}

impl BindValue for str {
    open spec fn bound_cell(&self) -> Option<Cell> {
        sized_cell(self.spec_bytes(), Cell::Text(self.spec_bytes()))
    }

    open spec fn refused_with(&self, e: Error) -> bool {
        is_allocation_error(self.spec_bytes().len(), e)
    }

    fn bind_value(&self, stmt: &mut Statement<'_>, index: i32) -> (r: Result<(), Error>) {
        let n = self.as_bytes().len();
        if n > MAX_ALLOCATION {
            return Err(allocation_error(n));
        }
        stmt.bind_text(index, self)
    }
}

impl BindValue for String {
    open spec fn bound_cell(&self) -> Option<Cell> {
        sized_cell(encode_utf8(self@), Cell::Text(encode_utf8(self@)))
    }

    open spec fn refused_with(&self, e: Error) -> bool {
        is_allocation_error(encode_utf8(self@).len(), e)
    }

    fn bind_value(&self, stmt: &mut Statement<'_>, index: i32) -> (r: Result<(), Error>) {
        self.as_str().bind_value(stmt, index)
    }
}

impl<const N: usize> BindValue for FixedText<N> {
    open spec fn bound_cell(&self) -> Option<Cell> {
        sized_cell(self@, Cell::Text(self@))
    }

    open spec fn refused_with(&self, e: Error) -> bool {
        is_allocation_error(self@.len(), e)
    }

    fn bind_value(&self, stmt: &mut Statement<'_>, index: i32) -> (r: Result<(), Error>) {
        let bytes = self.as_text();
        if bytes.len() > MAX_ALLOCATION {
            return Err(allocation_error(bytes.len()));
        }
        stmt.bind_text_bytes(index, bytes)
    }
}

impl BindValue for i64 {
    open spec fn bound_cell(&self) -> Option<Cell> {
        Some(Cell::Integer(*self))
    }

    open spec fn refused_with(&self, e: Error) -> bool {
        false
    }

    fn bind_value(&self, stmt: &mut Statement<'_>, index: i32) -> (r: Result<(), Error>) {
        stmt.bind_integer(index, *self)
    }
}

impl BindValue for i8 {
    open spec fn bound_cell(&self) -> Option<Cell> {
        Some(Cell::Integer(*self as i64))
    }

    open spec fn refused_with(&self, e: Error) -> bool {
        false
    }

    fn bind_value(&self, stmt: &mut Statement<'_>, index: i32) -> (r: Result<(), Error>) {
        stmt.bind_integer(index, *self as i64)
    }
}

impl BindValue for i16 {
    open spec fn bound_cell(&self) -> Option<Cell> {
        Some(Cell::Integer(*self as i64))
    }

    open spec fn refused_with(&self, e: Error) -> bool {
        false
    }

    fn bind_value(&self, stmt: &mut Statement<'_>, index: i32) -> (r: Result<(), Error>) {
        stmt.bind_integer(index, *self as i64)
    }
}

impl BindValue for i32 {
    open spec fn bound_cell(&self) -> Option<Cell> {
        Some(Cell::Integer(*self as i64))
    }

    open spec fn refused_with(&self, e: Error) -> bool {
        false
    }

    fn bind_value(&self, stmt: &mut Statement<'_>, index: i32) -> (r: Result<(), Error>) {
        stmt.bind_integer(index, *self as i64)
    }
}

impl BindValue for u8 {
    open spec fn bound_cell(&self) -> Option<Cell> {
        Some(Cell::Integer(*self as i64))
    }

    open spec fn refused_with(&self, e: Error) -> bool {
        false
    }

    fn bind_value(&self, stmt: &mut Statement<'_>, index: i32) -> (r: Result<(), Error>) {
        stmt.bind_integer(index, *self as i64)
    }
}

impl BindValue for u16 {
    open spec fn bound_cell(&self) -> Option<Cell> {
        Some(Cell::Integer(*self as i64))
    }

    open spec fn refused_with(&self, e: Error) -> bool {
        false
    }

    fn bind_value(&self, stmt: &mut Statement<'_>, index: i32) -> (r: Result<(), Error>) {
        stmt.bind_integer(index, *self as i64)
    }
}

impl BindValue for u32 {
    open spec fn bound_cell(&self) -> Option<Cell> {
        Some(Cell::Integer(*self as i64))
    }

    open spec fn refused_with(&self, e: Error) -> bool {
        false
    }

    fn bind_value(&self, stmt: &mut Statement<'_>, index: i32) -> (r: Result<(), Error>) {
        stmt.bind_integer(index, *self as i64)
    }
}

impl BindValue for i128 {
    open spec fn bound_cell(&self) -> Option<Cell> {
        integer_cell(*self as int)
    }

    open spec fn refused_with(&self, e: Error) -> bool {
        is_integer_error(*self as int, e)
    }

    fn bind_value(&self, stmt: &mut Statement<'_>, index: i32) -> (r: Result<(), Error>) {
        if i64::MIN as i128 <= *self && *self <= i64::MAX as i128 {
            stmt.bind_integer(index, *self as i64)
        } else {
            Err(integer_error_signed(*self))
        }
    }
}

impl BindValue for u64 {
    open spec fn bound_cell(&self) -> Option<Cell> {
        integer_cell(*self as int)
    }

    open spec fn refused_with(&self, e: Error) -> bool {
        is_integer_error(*self as int, e)
    }

    fn bind_value(&self, stmt: &mut Statement<'_>, index: i32) -> (r: Result<(), Error>) {
        if *self <= i64::MAX as u64 {
            stmt.bind_integer(index, *self as i64)
        } else {
            Err(integer_error_unsigned(*self as u128))
        }
    }
}

impl BindValue for u128 {
    open spec fn bound_cell(&self) -> Option<Cell> {
        integer_cell(*self as int)
    }

    open spec fn refused_with(&self, e: Error) -> bool {
        is_integer_error(*self as int, e)
    }

    fn bind_value(&self, stmt: &mut Statement<'_>, index: i32) -> (r: Result<(), Error>) {
        if *self <= i64::MAX as u128 {
            stmt.bind_integer(index, *self as i64)
        } else {
            Err(integer_error_unsigned(*self as u128))
        }
    }
}

impl<T: BindValue> BindValue for Option<T> {
    open spec fn bound_cell(&self) -> Option<Cell> {
        match self {
            Some(v) => v.bound_cell(),
            None => Some(Cell::Null),
        }
    }

    open spec fn refused_with(&self, e: Error) -> bool {
        match self {
            Some(v) => v.refused_with(e),
            None => false,
        }
    }

    fn bind_value(&self, stmt: &mut Statement<'_>, index: i32) -> (r: Result<(), Error>) {
        match self {
            Some(v) => v.bind_value(stmt, index),
            None => stmt.bind_null(index),
        }
    }
}

/// A value that binds the parameters of a statement: a single value binds
/// the first parameter, and a tuple binds its elements to the parameters in
/// order, starting from the first.
pub trait Bind {
    /// The bindings after binding this value over `before`, or `None` when
    /// some element is refused before it reaches SQLite.
    spec fn bind_spec(&self, before: Map<i32, Cell>) -> Option<Map<i32, Cell>>;

    /// Bind this value to the statement, element by element, stopping at the
    /// first error.
    fn bind(&self, stmt: &mut Statement<'_>) -> (r: Result<(), Error>)
        ensures
            final(stmt).current_row() == old(stmt).current_row(),
            final(stmt).last_step() == old(stmt).last_step(),
            r is Ok ==> self.bind_spec(old(stmt).bindings()) == Some(final(stmt).bindings()),
            self.bind_spec(old(stmt).bindings()) is None ==> r is Err,
    ;
}

impl<T: BindValue + ?Sized> Bind for T {
    open spec fn bind_spec(&self, before: Map<i32, Cell>) -> Option<Map<i32, Cell>> {
        match self.bound_cell() {
            Some(c) => Some(before.insert(BIND_INDEX, c)),
            None => None,
        }
    }

    fn bind(&self, stmt: &mut Statement<'_>) -> (r: Result<(), Error>) {
        self.bind_value(stmt, BIND_INDEX)
    }
}

impl Bind for () {
    open spec fn bind_spec(&self, before: Map<i32, Cell>) -> Option<Map<i32, Cell>> {
        Some(before)
    }

    fn bind(&self, stmt: &mut Statement<'_>) -> (r: Result<(), Error>)
        ensures
            r is Ok,
            *final(stmt) == *old(stmt),
    {
        Ok(())
    }
}

impl<A> Bind for (A,) where A: BindValue {
    open spec fn bind_spec(&self, before: Map<i32, Cell>) -> Option<Map<i32, Cell>> {
        if self.0.bound_cell() is Some {
            Some(before.insert(1, self.0.bound_cell()->Some_0))
        } else {
            None
        }
    }

    fn bind(&self, stmt: &mut Statement<'_>) -> (r: Result<(), Error>) {
        let (a,) = self;
        a.bind_value(stmt, 1)?;
        Ok(())
    }
}

impl<A, B> Bind for (A, B) where A: BindValue, B: BindValue {
    open spec fn bind_spec(&self, before: Map<i32, Cell>) -> Option<Map<i32, Cell>> {
        if self.0.bound_cell() is Some && self.1.bound_cell() is Some {
            Some(before.insert(1, self.0.bound_cell()->Some_0).insert(2, self.1.bound_cell()->Some_0))
        } else {
            None
        }
    }

    fn bind(&self, stmt: &mut Statement<'_>) -> (r: Result<(), Error>) {
        let (a, b) = self;
        a.bind_value(stmt, 1)?;
        b.bind_value(stmt, 2)?;
        Ok(())
    }
}

impl<A, B, C> Bind for (A, B, C) where A: BindValue, B: BindValue, C: BindValue {
    open spec fn bind_spec(&self, before: Map<i32, Cell>) -> Option<Map<i32, Cell>> {
        if self.0.bound_cell() is Some && self.1.bound_cell() is Some && self.2.bound_cell() is Some {
            Some(before.insert(1, self.0.bound_cell()->Some_0).insert(2, self.1.bound_cell()->Some_0).insert(3, self.2.bound_cell()->Some_0))
        } else {
            None
        }
    }

    fn bind(&self, stmt: &mut Statement<'_>) -> (r: Result<(), Error>) {
        let (a, b, c) = self;
        a.bind_value(stmt, 1)?;
        b.bind_value(stmt, 2)?;
        c.bind_value(stmt, 3)?;
        Ok(())
    }
}

impl<A, B, C, D> Bind for (A, B, C, D) where A: BindValue, B: BindValue, C: BindValue, D: BindValue {
    open spec fn bind_spec(&self, before: Map<i32, Cell>) -> Option<Map<i32, Cell>> {
        if self.0.bound_cell() is Some && self.1.bound_cell() is Some && self.2.bound_cell() is Some && self.3.bound_cell() is Some {
            Some(before.insert(1, self.0.bound_cell()->Some_0).insert(2, self.1.bound_cell()->Some_0).insert(3, self.2.bound_cell()->Some_0).insert(4, self.3.bound_cell()->Some_0))
        } else {
            None
        }
    }

    fn bind(&self, stmt: &mut Statement<'_>) -> (r: Result<(), Error>) {
        let (a, b, c, d) = self;
        a.bind_value(stmt, 1)?;
        b.bind_value(stmt, 2)?;
        c.bind_value(stmt, 3)?;
        d.bind_value(stmt, 4)?;
        Ok(())
    }
}

impl<A, B, C, D, E> Bind for (A, B, C, D, E) where A: BindValue, B: BindValue, C: BindValue, D: BindValue, E: BindValue {
    open spec fn bind_spec(&self, before: Map<i32, Cell>) -> Option<Map<i32, Cell>> {
        if self.0.bound_cell() is Some && self.1.bound_cell() is Some && self.2.bound_cell() is Some && self.3.bound_cell() is Some && self.4.bound_cell() is Some {
            Some(before.insert(1, self.0.bound_cell()->Some_0).insert(2, self.1.bound_cell()->Some_0).insert(3, self.2.bound_cell()->Some_0).insert(4, self.3.bound_cell()->Some_0).insert(5, self.4.bound_cell()->Some_0))
        } else {
            None
        }
    }

    fn bind(&self, stmt: &mut Statement<'_>) -> (r: Result<(), Error>) {
        let (a, b, c, d, e) = self;
        a.bind_value(stmt, 1)?;
        b.bind_value(stmt, 2)?;
        c.bind_value(stmt, 3)?;
        d.bind_value(stmt, 4)?;
        e.bind_value(stmt, 5)?;
        Ok(())
    }
}

impl<A, B, C, D, E, F> Bind for (A, B, C, D, E, F) where A: BindValue, B: BindValue, C: BindValue, D: BindValue, E: BindValue, F: BindValue {
    open spec fn bind_spec(&self, before: Map<i32, Cell>) -> Option<Map<i32, Cell>> {
        if self.0.bound_cell() is Some && self.1.bound_cell() is Some && self.2.bound_cell() is Some && self.3.bound_cell() is Some && self.4.bound_cell() is Some && self.5.bound_cell() is Some {
            Some(before.insert(1, self.0.bound_cell()->Some_0).insert(2, self.1.bound_cell()->Some_0).insert(3, self.2.bound_cell()->Some_0).insert(4, self.3.bound_cell()->Some_0).insert(5, self.4.bound_cell()->Some_0).insert(6, self.5.bound_cell()->Some_0))
        } else {
            None
        }
    }

    fn bind(&self, stmt: &mut Statement<'_>) -> (r: Result<(), Error>) {
        let (a, b, c, d, e, f) = self;
        a.bind_value(stmt, 1)?;
        b.bind_value(stmt, 2)?;
        c.bind_value(stmt, 3)?;
        d.bind_value(stmt, 4)?;
        e.bind_value(stmt, 5)?;
        f.bind_value(stmt, 6)?;
        Ok(())
    }
}

impl<A, B, C, D, E, F, G> Bind for (A, B, C, D, E, F, G) where A: BindValue, B: BindValue, C: BindValue, D: BindValue, E: BindValue, F: BindValue, G: BindValue {
    open spec fn bind_spec(&self, before: Map<i32, Cell>) -> Option<Map<i32, Cell>> {
        if self.0.bound_cell() is Some && self.1.bound_cell() is Some && self.2.bound_cell() is Some && self.3.bound_cell() is Some && self.4.bound_cell() is Some && self.5.bound_cell() is Some && self.6.bound_cell() is Some {
            Some(before.insert(1, self.0.bound_cell()->Some_0).insert(2, self.1.bound_cell()->Some_0).insert(3, self.2.bound_cell()->Some_0).insert(4, self.3.bound_cell()->Some_0).insert(5, self.4.bound_cell()->Some_0).insert(6, self.5.bound_cell()->Some_0).insert(7, self.6.bound_cell()->Some_0))
        } else {
            None
        }
    }

    fn bind(&self, stmt: &mut Statement<'_>) -> (r: Result<(), Error>) {
        let (a, b, c, d, e, f, g) = self;
        a.bind_value(stmt, 1)?;
        b.bind_value(stmt, 2)?;
        c.bind_value(stmt, 3)?;
        d.bind_value(stmt, 4)?;
        e.bind_value(stmt, 5)?;
        f.bind_value(stmt, 6)?;
        g.bind_value(stmt, 7)?;
        Ok(())
    }
}

impl<A, B, C, D, E, F, G, H> Bind for (A, B, C, D, E, F, G, H) where A: BindValue, B: BindValue, C: BindValue, D: BindValue, E: BindValue, F: BindValue, G: BindValue, H: BindValue {
    open spec fn bind_spec(&self, before: Map<i32, Cell>) -> Option<Map<i32, Cell>> {
        if self.0.bound_cell() is Some && self.1.bound_cell() is Some && self.2.bound_cell() is Some && self.3.bound_cell() is Some && self.4.bound_cell() is Some && self.5.bound_cell() is Some && self.6.bound_cell() is Some && self.7.bound_cell() is Some {
            Some(before.insert(1, self.0.bound_cell()->Some_0).insert(2, self.1.bound_cell()->Some_0).insert(3, self.2.bound_cell()->Some_0).insert(4, self.3.bound_cell()->Some_0).insert(5, self.4.bound_cell()->Some_0).insert(6, self.5.bound_cell()->Some_0).insert(7, self.6.bound_cell()->Some_0).insert(8, self.7.bound_cell()->Some_0))
        } else {
            None
        }
    }

    fn bind(&self, stmt: &mut Statement<'_>) -> (r: Result<(), Error>) {
        let (a, b, c, d, e, f, g, h) = self;
        a.bind_value(stmt, 1)?;
        b.bind_value(stmt, 2)?;
        c.bind_value(stmt, 3)?;
        d.bind_value(stmt, 4)?;
        e.bind_value(stmt, 5)?;
        f.bind_value(stmt, 6)?;
        g.bind_value(stmt, 7)?;
        h.bind_value(stmt, 8)?;
        Ok(())
    }
}

impl<A, B, C, D, E, F, G, H, I> Bind for (A, B, C, D, E, F, G, H, I) where A: BindValue, B: BindValue, C: BindValue, D: BindValue, E: BindValue, F: BindValue, G: BindValue, H: BindValue, I: BindValue {
    open spec fn bind_spec(&self, before: Map<i32, Cell>) -> Option<Map<i32, Cell>> {
        if self.0.bound_cell() is Some && self.1.bound_cell() is Some && self.2.bound_cell() is Some && self.3.bound_cell() is Some && self.4.bound_cell() is Some && self.5.bound_cell() is Some && self.6.bound_cell() is Some && self.7.bound_cell() is Some && self.8.bound_cell() is Some {
            Some(before.insert(1, self.0.bound_cell()->Some_0).insert(2, self.1.bound_cell()->Some_0).insert(3, self.2.bound_cell()->Some_0).insert(4, self.3.bound_cell()->Some_0).insert(5, self.4.bound_cell()->Some_0).insert(6, self.5.bound_cell()->Some_0).insert(7, self.6.bound_cell()->Some_0).insert(8, self.7.bound_cell()->Some_0).insert(9, self.8.bound_cell()->Some_0))
        } else {
            None
        }
    }

    fn bind(&self, stmt: &mut Statement<'_>) -> (r: Result<(), Error>) {
        let (a, b, c, d, e, f, g, h, i) = self;
        a.bind_value(stmt, 1)?;
        b.bind_value(stmt, 2)?;
        c.bind_value(stmt, 3)?;
        d.bind_value(stmt, 4)?;
        e.bind_value(stmt, 5)?;
        f.bind_value(stmt, 6)?;
        g.bind_value(stmt, 7)?;
        h.bind_value(stmt, 8)?;
        i.bind_value(stmt, 9)?;
        Ok(())
    }
}

impl<A, B, C, D, E, F, G, H, I, J> Bind for (A, B, C, D, E, F, G, H, I, J) where A: BindValue, B: BindValue, C: BindValue, D: BindValue, E: BindValue, F: BindValue, G: BindValue, H: BindValue, I: BindValue, J: BindValue {
    open spec fn bind_spec(&self, before: Map<i32, Cell>) -> Option<Map<i32, Cell>> {
        if self.0.bound_cell() is Some && self.1.bound_cell() is Some && self.2.bound_cell() is Some && self.3.bound_cell() is Some && self.4.bound_cell() is Some && self.5.bound_cell() is Some && self.6.bound_cell() is Some && self.7.bound_cell() is Some && self.8.bound_cell() is Some && self.9.bound_cell() is Some {
            Some(before.insert(1, self.0.bound_cell()->Some_0).insert(2, self.1.bound_cell()->Some_0).insert(3, self.2.bound_cell()->Some_0).insert(4, self.3.bound_cell()->Some_0).insert(5, self.4.bound_cell()->Some_0).insert(6, self.5.bound_cell()->Some_0).insert(7, self.6.bound_cell()->Some_0).insert(8, self.7.bound_cell()->Some_0).insert(9, self.8.bound_cell()->Some_0).insert(10, self.9.bound_cell()->Some_0))
        } else {
            None
        }
    }

    fn bind(&self, stmt: &mut Statement<'_>) -> (r: Result<(), Error>) {
        let (a, b, c, d, e, f, g, h, i, j) = self;
        a.bind_value(stmt, 1)?;
        b.bind_value(stmt, 2)?;
        c.bind_value(stmt, 3)?;
        d.bind_value(stmt, 4)?;
        e.bind_value(stmt, 5)?;
        f.bind_value(stmt, 6)?;
        g.bind_value(stmt, 7)?;
        h.bind_value(stmt, 8)?;
        i.bind_value(stmt, 9)?;
        j.bind_value(stmt, 10)?;
        Ok(())
    }
}

impl<A, B, C, D, E, F, G, H, I, J, K> Bind for (A, B, C, D, E, F, G, H, I, J, K) where A: BindValue, B: BindValue, C: BindValue, D: BindValue, E: BindValue, F: BindValue, G: BindValue, H: BindValue, I: BindValue, J: BindValue, K: BindValue {
    open spec fn bind_spec(&self, before: Map<i32, Cell>) -> Option<Map<i32, Cell>> {
        if self.0.bound_cell() is Some && self.1.bound_cell() is Some && self.2.bound_cell() is Some && self.3.bound_cell() is Some && self.4.bound_cell() is Some && self.5.bound_cell() is Some && self.6.bound_cell() is Some && self.7.bound_cell() is Some && self.8.bound_cell() is Some && self.9.bound_cell() is Some && self.10.bound_cell() is Some {
            Some(before.insert(1, self.0.bound_cell()->Some_0).insert(2, self.1.bound_cell()->Some_0).insert(3, self.2.bound_cell()->Some_0).insert(4, self.3.bound_cell()->Some_0).insert(5, self.4.bound_cell()->Some_0).insert(6, self.5.bound_cell()->Some_0).insert(7, self.6.bound_cell()->Some_0).insert(8, self.7.bound_cell()->Some_0).insert(9, self.8.bound_cell()->Some_0).insert(10, self.9.bound_cell()->Some_0).insert(11, self.10.bound_cell()->Some_0))
        } else {
            None
        }
    }

    fn bind(&self, stmt: &mut Statement<'_>) -> (r: Result<(), Error>) {
        let (a, b, c, d, e, f, g, h, i, j, k) = self;
        a.bind_value(stmt, 1)?;
        b.bind_value(stmt, 2)?;
        c.bind_value(stmt, 3)?;
        d.bind_value(stmt, 4)?;
        e.bind_value(stmt, 5)?;
        f.bind_value(stmt, 6)?;
        g.bind_value(stmt, 7)?;
        h.bind_value(stmt, 8)?;
        i.bind_value(stmt, 9)?;
        j.bind_value(stmt, 10)?;
        k.bind_value(stmt, 11)?;
        Ok(())
    }
}

impl<A, B, C, D, E, F, G, H, I, J, K, L> Bind for (A, B, C, D, E, F, G, H, I, J, K, L) where A: BindValue, B: BindValue, C: BindValue, D: BindValue, E: BindValue, F: BindValue, G: BindValue, H: BindValue, I: BindValue, J: BindValue, K: BindValue, L: BindValue {
    open spec fn bind_spec(&self, before: Map<i32, Cell>) -> Option<Map<i32, Cell>> {
        if self.0.bound_cell() is Some && self.1.bound_cell() is Some && self.2.bound_cell() is Some && self.3.bound_cell() is Some && self.4.bound_cell() is Some && self.5.bound_cell() is Some && self.6.bound_cell() is Some && self.7.bound_cell() is Some && self.8.bound_cell() is Some && self.9.bound_cell() is Some && self.10.bound_cell() is Some && self.11.bound_cell() is Some {
            Some(before.insert(1, self.0.bound_cell()->Some_0).insert(2, self.1.bound_cell()->Some_0).insert(3, self.2.bound_cell()->Some_0).insert(4, self.3.bound_cell()->Some_0).insert(5, self.4.bound_cell()->Some_0).insert(6, self.5.bound_cell()->Some_0).insert(7, self.6.bound_cell()->Some_0).insert(8, self.7.bound_cell()->Some_0).insert(9, self.8.bound_cell()->Some_0).insert(10, self.9.bound_cell()->Some_0).insert(11, self.10.bound_cell()->Some_0).insert(12, self.11.bound_cell()->Some_0))
        } else {
            None
        }
    }

    fn bind(&self, stmt: &mut Statement<'_>) -> (r: Result<(), Error>) {
        let (a, b, c, d, e, f, g, h, i, j, k, l) = self;
        a.bind_value(stmt, 1)?;
        b.bind_value(stmt, 2)?;
        c.bind_value(stmt, 3)?;
        d.bind_value(stmt, 4)?;
        e.bind_value(stmt, 5)?;
        f.bind_value(stmt, 6)?;
        g.bind_value(stmt, 7)?;
        h.bind_value(stmt, 8)?;
        i.bind_value(stmt, 9)?;
        j.bind_value(stmt, 10)?;
        k.bind_value(stmt, 11)?;
        l.bind_value(stmt, 12)?;
        Ok(())
    }
}

impl<A, B, C, D, E, F, G, H, I, J, K, L, M> Bind for (A, B, C, D, E, F, G, H, I, J, K, L, M) where A: BindValue, B: BindValue, C: BindValue, D: BindValue, E: BindValue, F: BindValue, G: BindValue, H: BindValue, I: BindValue, J: BindValue, K: BindValue, L: BindValue, M: BindValue {
    open spec fn bind_spec(&self, before: Map<i32, Cell>) -> Option<Map<i32, Cell>> {
        if self.0.bound_cell() is Some && self.1.bound_cell() is Some && self.2.bound_cell() is Some && self.3.bound_cell() is Some && self.4.bound_cell() is Some && self.5.bound_cell() is Some && self.6.bound_cell() is Some && self.7.bound_cell() is Some && self.8.bound_cell() is Some && self.9.bound_cell() is Some && self.10.bound_cell() is Some && self.11.bound_cell() is Some && self.12.bound_cell() is Some {
            Some(before.insert(1, self.0.bound_cell()->Some_0).insert(2, self.1.bound_cell()->Some_0).insert(3, self.2.bound_cell()->Some_0).insert(4, self.3.bound_cell()->Some_0).insert(5, self.4.bound_cell()->Some_0).insert(6, self.5.bound_cell()->Some_0).insert(7, self.6.bound_cell()->Some_0).insert(8, self.7.bound_cell()->Some_0).insert(9, self.8.bound_cell()->Some_0).insert(10, self.9.bound_cell()->Some_0).insert(11, self.10.bound_cell()->Some_0).insert(12, self.11.bound_cell()->Some_0).insert(13, self.12.bound_cell()->Some_0))
        } else {
            None
        }
    }

    fn bind(&self, stmt: &mut Statement<'_>) -> (r: Result<(), Error>) {
        let (a, b, c, d, e, f, g, h, i, j, k, l, m) = self;
        a.bind_value(stmt, 1)?;
        b.bind_value(stmt, 2)?;
        c.bind_value(stmt, 3)?;
        d.bind_value(stmt, 4)?;
        e.bind_value(stmt, 5)?;
        f.bind_value(stmt, 6)?;
        g.bind_value(stmt, 7)?;
        h.bind_value(stmt, 8)?;
        i.bind_value(stmt, 9)?;
        j.bind_value(stmt, 10)?;
        k.bind_value(stmt, 11)?;
        l.bind_value(stmt, 12)?;
        m.bind_value(stmt, 13)?;
        Ok(())
    }
}

impl<A, B, C, D, E, F, G, H, I, J, K, L, M, N> Bind for (A, B, C, D, E, F, G, H, I, J, K, L, M, N) where A: BindValue, B: BindValue, C: BindValue, D: BindValue, E: BindValue, F: BindValue, G: BindValue, H: BindValue, I: BindValue, J: BindValue, K: BindValue, L: BindValue, M: BindValue, N: BindValue {
    open spec fn bind_spec(&self, before: Map<i32, Cell>) -> Option<Map<i32, Cell>> {
        if self.0.bound_cell() is Some && self.1.bound_cell() is Some && self.2.bound_cell() is Some && self.3.bound_cell() is Some && self.4.bound_cell() is Some && self.5.bound_cell() is Some && self.6.bound_cell() is Some && self.7.bound_cell() is Some && self.8.bound_cell() is Some && self.9.bound_cell() is Some && self.10.bound_cell() is Some && self.11.bound_cell() is Some && self.12.bound_cell() is Some && self.13.bound_cell() is Some {
            Some(before.insert(1, self.0.bound_cell()->Some_0).insert(2, self.1.bound_cell()->Some_0).insert(3, self.2.bound_cell()->Some_0).insert(4, self.3.bound_cell()->Some_0).insert(5, self.4.bound_cell()->Some_0).insert(6, self.5.bound_cell()->Some_0).insert(7, self.6.bound_cell()->Some_0).insert(8, self.7.bound_cell()->Some_0).insert(9, self.8.bound_cell()->Some_0).insert(10, self.9.bound_cell()->Some_0).insert(11, self.10.bound_cell()->Some_0).insert(12, self.11.bound_cell()->Some_0).insert(13, self.12.bound_cell()->Some_0).insert(14, self.13.bound_cell()->Some_0))
        } else {
            None
        }
    }

    fn bind(&self, stmt: &mut Statement<'_>) -> (r: Result<(), Error>) {
        let (a, b, c, d, e, f, g, h, i, j, k, l, m, n) = self;
        a.bind_value(stmt, 1)?;
        b.bind_value(stmt, 2)?;
        c.bind_value(stmt, 3)?;
        d.bind_value(stmt, 4)?;
        e.bind_value(stmt, 5)?;
        f.bind_value(stmt, 6)?;
        g.bind_value(stmt, 7)?;
        h.bind_value(stmt, 8)?;
        i.bind_value(stmt, 9)?;
        j.bind_value(stmt, 10)?;
        k.bind_value(stmt, 11)?;
        l.bind_value(stmt, 12)?;
        m.bind_value(stmt, 13)?;
        n.bind_value(stmt, 14)?;
        Ok(())
    }
}

impl<A, B, C, D, E, F, G, H, I, J, K, L, M, N, O> Bind for (A, B, C, D, E, F, G, H, I, J, K, L, M, N, O) where A: BindValue, B: BindValue, C: BindValue, D: BindValue, E: BindValue, F: BindValue, G: BindValue, H: BindValue, I: BindValue, J: BindValue, K: BindValue, L: BindValue, M: BindValue, N: BindValue, O: BindValue {
    open spec fn bind_spec(&self, before: Map<i32, Cell>) -> Option<Map<i32, Cell>> {
        if self.0.bound_cell() is Some && self.1.bound_cell() is Some && self.2.bound_cell() is Some && self.3.bound_cell() is Some && self.4.bound_cell() is Some && self.5.bound_cell() is Some && self.6.bound_cell() is Some && self.7.bound_cell() is Some && self.8.bound_cell() is Some && self.9.bound_cell() is Some && self.10.bound_cell() is Some && self.11.bound_cell() is Some && self.12.bound_cell() is Some && self.13.bound_cell() is Some && self.14.bound_cell() is Some {
            Some(before.insert(1, self.0.bound_cell()->Some_0).insert(2, self.1.bound_cell()->Some_0).insert(3, self.2.bound_cell()->Some_0).insert(4, self.3.bound_cell()->Some_0).insert(5, self.4.bound_cell()->Some_0).insert(6, self.5.bound_cell()->Some_0).insert(7, self.6.bound_cell()->Some_0).insert(8, self.7.bound_cell()->Some_0).insert(9, self.8.bound_cell()->Some_0).insert(10, self.9.bound_cell()->Some_0).insert(11, self.10.bound_cell()->Some_0).insert(12, self.11.bound_cell()->Some_0).insert(13, self.12.bound_cell()->Some_0).insert(14, self.13.bound_cell()->Some_0).insert(15, self.14.bound_cell()->Some_0))
        } else {
            None
        }
    }

    fn bind(&self, stmt: &mut Statement<'_>) -> (r: Result<(), Error>) {
        let (a, b, c, d, e, f, g, h, i, j, k, l, m, n, o) = self;
        a.bind_value(stmt, 1)?;
        b.bind_value(stmt, 2)?;
        c.bind_value(stmt, 3)?;
        d.bind_value(stmt, 4)?;
        e.bind_value(stmt, 5)?;
        f.bind_value(stmt, 6)?;
        g.bind_value(stmt, 7)?;
        h.bind_value(stmt, 8)?;
        i.bind_value(stmt, 9)?;
        j.bind_value(stmt, 10)?;
        k.bind_value(stmt, 11)?;
        l.bind_value(stmt, 12)?;
        m.bind_value(stmt, 13)?;
        n.bind_value(stmt, 14)?;
        o.bind_value(stmt, 15)?;
        Ok(())
    }
}

} // verus!
