//! Decoding the value of a column into a Rust value.

use vstd::prelude::*;
use vstd::slice::slice_to_vec;
use vstd::string::StringSliceAdditionalSpecFns;
use vstd::utf8::{encode_utf8, valid_utf8};

use crate::code::Code;
use crate::error::{capacity_message, Error};
use crate::fixed::{FixedBlob, FixedText};
use crate::statement::Statement;
use crate::text::{push_signed_decimal, signed_decimal, str_from_utf8};
use crate::ty::{self, AnyKind, NotNull, Type};
use crate::value::{Cell, ColumnValue, Kind, Null, Real, Value};

verus! {

/// The message of a failed conversion of an integer column.
pub open spec fn conversion_message(value: i64, target: Seq<char>) -> Seq<char> {
    "integer "@ + signed_decimal(value as int) + " cannot be converted to "@ + target
}

/// The message of a text column that is not valid UTF-8.
pub open spec fn invalid_utf8_message() -> Seq<char> {
    "column is not valid UTF-8"@
}

/// Whether `e` is the error of a text column that is not valid UTF-8.
pub open spec fn is_utf8_error(e: Error) -> bool {
    e.code_spec() == Code::MISMATCH && e.message_spec() == invalid_utf8_message()
}

/// Whether `e` is the error of a value of `len` bytes that does not fit in a
/// buffer of `max` bytes.
pub open spec fn is_capacity_error(e: Error, len: nat, max: nat) -> bool {
    e.code_spec() == Code::MISMATCH && e.message_spec() == capacity_message(len, max)
}

/// A type that can be read from a column.
///
/// The column is first checked through the marker `Self::Type`, which fixes
/// the column types that are accepted; the marker is then handed to
/// `from_column`, which decodes the value.
pub trait FromColumn<'stmt>: Sized {
    /// The marker of the accepted column types.
    type Type: Type;

    /// Whether a column holding `cell`, which the marker accepts, decodes
    /// into a value rather than an error.
    spec fn accepts(cell: Cell) -> bool;

    /// Whether `value` is what a column holding `cell` decodes into.
    spec fn decodes_to(cell: Cell, value: Self) -> bool;

    /// Whether `e` is the error that decoding a column holding `cell` gives.
    spec fn fails_with(cell: Cell, e: Error) -> bool;

    /// Decode the value of the column that `index` was checked against.
    fn from_column(stmt: &'stmt Statement<'_>, index: Self::Type) -> (r: Result<Self, Error>)
        requires
            index.describes(stmt.column_at(index.column())),
        ensures
            r is Ok <==> Self::accepts(stmt.column_at(index.column())),
            r matches Ok(v) ==> Self::decodes_to(stmt.column_at(index.column()), v),
            r matches Err(e) ==> Self::fails_with(stmt.column_at(index.column()), e),
    ;
}

/// Whether `r` is what decoding a column holding `cell`, which the marker of
/// `T` accepts, gives.
pub open spec fn decoded<'stmt, T: FromColumn<'stmt>>(cell: Cell, r: Result<T, Error>) -> bool {
    &&& (r is Ok <==> T::accepts(cell))
    &&& match r {
        Ok(v) => T::decodes_to(cell, v),
        Err(e) => T::fails_with(cell, e),
    }
}

/// Whether `r` is what reading a column holding `cell` as a `T` gives: a
/// `MISMATCH` error when the marker of `T` does not accept the column, and
/// the decoded value otherwise.
pub open spec fn read_as<'stmt, T: FromColumn<'stmt>>(cell: Cell, r: Result<T, Error>) -> bool {
    if <T::Type as Type>::admits(cell) {
        decoded::<'stmt, T>(cell, r)
    } else {
        r matches Err(e) && e.code_spec() == Code::MISMATCH
    }
}

impl<'stmt> FromColumn<'stmt> for Null {
    type Type = ty::Null;

    open spec fn accepts(cell: Cell) -> bool {
        true
    }

    open spec fn decodes_to(cell: Cell, value: Self) -> bool {
        cell is Null
    }

    open spec fn fails_with(cell: Cell, e: Error) -> bool {
        false
    }

    fn from_column(stmt: &'stmt Statement<'_>, index: ty::Null) -> (r: Result<Self, Error>) {
        Ok(Null)
    }
}

impl<'stmt> FromColumn<'stmt> for i64 {
    type Type = ty::Integer;

    open spec fn accepts(cell: Cell) -> bool {
        true
    }

    open spec fn decodes_to(cell: Cell, value: Self) -> bool {
        cell == Cell::Integer(value)
    }

    open spec fn fails_with(cell: Cell, e: Error) -> bool {
        false
    }

    fn from_column(stmt: &'stmt Statement<'_>, index: ty::Integer) -> (r: Result<Self, Error>) {
        match stmt.column_value(index.index()) {
            Some(ColumnValue::Integer(v)) => Ok(*v),
            _ => {
                assert(false);
                Ok(0)
            },
        }
    }
}

impl<'stmt> FromColumn<'stmt> for i128 {
    type Type = ty::Integer;

    open spec fn accepts(cell: Cell) -> bool {
        true
    }

    open spec fn decodes_to(cell: Cell, value: Self) -> bool {
        cell matches Cell::Integer(v) && value == v as i128
    }

    open spec fn fails_with(cell: Cell, e: Error) -> bool {
        false
    }

    fn from_column(stmt: &'stmt Statement<'_>, index: ty::Integer) -> (r: Result<Self, Error>) {
        let v = i64::from_column(stmt, index)?;
        Ok(v as i128)
    }
}

/// The error of an integer that does not fit the type it is read as.
fn conversion_error(value: i64, target: &str) -> (e: Error)
    ensures
        e.code_spec() == Code::MISMATCH,
        e.message_spec() == conversion_message(value, target@),
{
    let mut m = String::from_str("integer ");
    push_signed_decimal(&mut m, value as i128);
    m.append(" cannot be converted to ");
    m.append(target);
    Error::with_message(Code::MISMATCH, m)
}

/// Reads an integer column into a narrower integer type: an integer in
/// range converts, any other is a `MISMATCH` error naming the value and the
/// type.
pub open spec fn narrowed(cell: Cell, lo: int, hi: int, value: int) -> bool {
    cell matches Cell::Integer(v) && lo <= v <= hi && value == v
}

/// Whether `e` is the error of an integer column out of the range `lo..=hi`
/// of the type named `target`.
pub open spec fn out_of_range(cell: Cell, lo: int, hi: int, target: Seq<char>, e: Error) -> bool {
    cell matches Cell::Integer(v) && !(lo <= v <= hi) && e.code_spec() == Code::MISMATCH
        && e.message_spec() == conversion_message(v, target)
}

/// Whether an integer column lies in the range `lo..=hi`.
pub open spec fn in_range(cell: Cell, lo: int, hi: int) -> bool {
    cell matches Cell::Integer(v) && lo <= v <= hi
}

impl<'stmt> FromColumn<'stmt> for i8 {
    type Type = ty::Integer;

    open spec fn accepts(cell: Cell) -> bool {
        in_range(cell, i8::MIN as int, i8::MAX as int)
    }

    open spec fn decodes_to(cell: Cell, value: Self) -> bool {
        narrowed(cell, i8::MIN as int, i8::MAX as int, value as int)
    }

    open spec fn fails_with(cell: Cell, e: Error) -> bool {
        out_of_range(cell, i8::MIN as int, i8::MAX as int, "i8"@, e)
    }

    fn from_column(stmt: &'stmt Statement<'_>, index: ty::Integer) -> (r: Result<Self, Error>) {
        let v = i64::from_column(stmt, index)?;
        if -128 <= v && v <= 127 {
            Ok(v as i8)
        } else {
            Err(conversion_error(v, "i8"))
        }
    }
}

impl<'stmt> FromColumn<'stmt> for i16 {
    type Type = ty::Integer;

    open spec fn accepts(cell: Cell) -> bool {
        in_range(cell, i16::MIN as int, i16::MAX as int)
    }

    open spec fn decodes_to(cell: Cell, value: Self) -> bool {
        narrowed(cell, i16::MIN as int, i16::MAX as int, value as int)
    }

    open spec fn fails_with(cell: Cell, e: Error) -> bool {
        out_of_range(cell, i16::MIN as int, i16::MAX as int, "i16"@, e)
    }

    fn from_column(stmt: &'stmt Statement<'_>, index: ty::Integer) -> (r: Result<Self, Error>) {
        let v = i64::from_column(stmt, index)?;
        if -32768 <= v && v <= 32767 {
            Ok(v as i16)
        } else {
            Err(conversion_error(v, "i16"))
        }
    }
}

impl<'stmt> FromColumn<'stmt> for i32 {
    type Type = ty::Integer;

    open spec fn accepts(cell: Cell) -> bool {
        in_range(cell, i32::MIN as int, i32::MAX as int)
    }

    open spec fn decodes_to(cell: Cell, value: Self) -> bool {
        narrowed(cell, i32::MIN as int, i32::MAX as int, value as int)
    }

    open spec fn fails_with(cell: Cell, e: Error) -> bool {
        out_of_range(cell, i32::MIN as int, i32::MAX as int, "i32"@, e)
    }

    fn from_column(stmt: &'stmt Statement<'_>, index: ty::Integer) -> (r: Result<Self, Error>) {
        let v = i64::from_column(stmt, index)?;
        if -2147483648 <= v && v <= 2147483647 {
            Ok(v as i32)
        } else {
            Err(conversion_error(v, "i32"))
        }
    }
}

impl<'stmt> FromColumn<'stmt> for u8 {
    type Type = ty::Integer;

    open spec fn accepts(cell: Cell) -> bool {
        in_range(cell, 0, u8::MAX as int)
    }

    open spec fn decodes_to(cell: Cell, value: Self) -> bool {
        narrowed(cell, 0, u8::MAX as int, value as int)
    }

    open spec fn fails_with(cell: Cell, e: Error) -> bool {
        out_of_range(cell, 0, u8::MAX as int, "u8"@, e)
    }

    fn from_column(stmt: &'stmt Statement<'_>, index: ty::Integer) -> (r: Result<Self, Error>) {
        let v = i64::from_column(stmt, index)?;
        if 0 <= v && v <= 255 {
            Ok(v as u8)
        } else {
            Err(conversion_error(v, "u8"))
        }
    }
}

impl<'stmt> FromColumn<'stmt> for u16 {
    type Type = ty::Integer;

    open spec fn accepts(cell: Cell) -> bool {
        in_range(cell, 0, u16::MAX as int)
    }

    open spec fn decodes_to(cell: Cell, value: Self) -> bool {
        narrowed(cell, 0, u16::MAX as int, value as int)
    }

    open spec fn fails_with(cell: Cell, e: Error) -> bool {
        out_of_range(cell, 0, u16::MAX as int, "u16"@, e)
    }

    fn from_column(stmt: &'stmt Statement<'_>, index: ty::Integer) -> (r: Result<Self, Error>) {
        let v = i64::from_column(stmt, index)?;
        if 0 <= v && v <= 65535 {
            Ok(v as u16)
        } else {
            Err(conversion_error(v, "u16"))
        }
    }
}

impl<'stmt> FromColumn<'stmt> for u32 {
    type Type = ty::Integer;

    open spec fn accepts(cell: Cell) -> bool {
        in_range(cell, 0, u32::MAX as int)
    }

    open spec fn decodes_to(cell: Cell, value: Self) -> bool {
        narrowed(cell, 0, u32::MAX as int, value as int)
    }

    open spec fn fails_with(cell: Cell, e: Error) -> bool {
        out_of_range(cell, 0, u32::MAX as int, "u32"@, e)
    }

    fn from_column(stmt: &'stmt Statement<'_>, index: ty::Integer) -> (r: Result<Self, Error>) {
        let v = i64::from_column(stmt, index)?;
        if 0 <= v && v <= 4294967295 {
            Ok(v as u32)
        } else {
            Err(conversion_error(v, "u32"))
        }
    }
}

impl<'stmt> FromColumn<'stmt> for u64 {
    type Type = ty::Integer;

    open spec fn accepts(cell: Cell) -> bool {
        in_range(cell, 0, u64::MAX as int)
    }

    open spec fn decodes_to(cell: Cell, value: Self) -> bool {
        narrowed(cell, 0, u64::MAX as int, value as int)
    }

    open spec fn fails_with(cell: Cell, e: Error) -> bool {
        out_of_range(cell, 0, u64::MAX as int, "u64"@, e)
    }

    fn from_column(stmt: &'stmt Statement<'_>, index: ty::Integer) -> (r: Result<Self, Error>) {
        let v = i64::from_column(stmt, index)?;
        if 0 <= v {
            Ok(v as u64)
        } else {
            Err(conversion_error(v, "u64"))
        }
    }
}

impl<'stmt> FromColumn<'stmt> for u128 {
    type Type = ty::Integer;

    open spec fn accepts(cell: Cell) -> bool {
        in_range(cell, 0, u128::MAX as int)
    }

    open spec fn decodes_to(cell: Cell, value: Self) -> bool {
        narrowed(cell, 0, u128::MAX as int, value as int)
    }

    open spec fn fails_with(cell: Cell, e: Error) -> bool {
        out_of_range(cell, 0, u128::MAX as int, "u128"@, e)
    }

    fn from_column(stmt: &'stmt Statement<'_>, index: ty::Integer) -> (r: Result<Self, Error>) {
        let v = i64::from_column(stmt, index)?;
        if 0 <= v {
            Ok(v as u128)
        } else {
            Err(conversion_error(v, "u128"))
        }
    }
}

impl<'stmt> FromColumn<'stmt> for Real {
    type Type = ty::Float;

    open spec fn accepts(cell: Cell) -> bool {
        true
    }

    open spec fn decodes_to(cell: Cell, value: Self) -> bool {
        cell == Cell::Real(value.bits_spec())
    }

    open spec fn fails_with(cell: Cell, e: Error) -> bool {
        false
    }

    fn from_column(stmt: &'stmt Statement<'_>, index: ty::Float) -> (r: Result<Self, Error>) {
        match stmt.column_value(index.index()) {
            Some(ColumnValue::Real(bits)) => Ok(Real::from_bits(*bits)),
            _ => {
                assert(false);
                Ok(Real::from_bits(0))
            },
        }
    }
}

/// The bytes of the text column that `index` was checked against.
fn text_bytes<'stmt>(stmt: &'stmt Statement<'_>, index: &ty::Text) -> (b: &'stmt [u8])
    requires
        index.describes(stmt.column_at(index.column())),
    ensures
        stmt.column_at(index.column()) == Cell::Text(b@),
{
    match stmt.column_value(index.index()) {
        Some(ColumnValue::Text(bytes)) => bytes.as_slice(),
        _ => {
            assert(false);
            &[]
        },
    }
}

/// The bytes of the blob column that `index` was checked against.
fn blob_bytes<'stmt>(stmt: &'stmt Statement<'_>, index: &ty::Blob) -> (b: &'stmt [u8])
    requires
        index.describes(stmt.column_at(index.column())),
    ensures
        stmt.column_at(index.column()) == Cell::Blob(b@),
{
    match stmt.column_value(index.index()) {
        Some(ColumnValue::Blob(bytes)) => bytes.as_slice(),
        _ => {
            assert(false);
            &[]
        },
    }
}

/// The text of the text column that `index` was checked against, or a
/// `MISMATCH` error when it is not valid UTF-8.
fn text_str<'stmt>(stmt: &'stmt Statement<'_>, index: &ty::Text) -> (r: Result<&'stmt str, Error>)
    requires
        index.describes(stmt.column_at(index.column())),
    ensures
        stmt.column_at(index.column()) matches Cell::Text(b) && (r is Ok <==> valid_utf8(b))
            && match r {
            Ok(s) => s.spec_bytes() == b,
            Err(e) => is_utf8_error(e),
        },
{
    let bytes = text_bytes(stmt, index);
    match str_from_utf8(bytes) {
        Some(s) => Ok(s),
        None => {
            proof {
                reveal_strlit("column is not valid UTF-8");
            }
            Err(Error::new(Code::MISMATCH, "column is not valid UTF-8"))
        },
    }
}

impl<'stmt> FromColumn<'stmt> for &'stmt str {
    type Type = ty::Text;

    open spec fn accepts(cell: Cell) -> bool {
        cell matches Cell::Text(b) && valid_utf8(b)
    }

    open spec fn decodes_to(cell: Cell, value: Self) -> bool {
        cell == Cell::Text(value.spec_bytes())
    }

    open spec fn fails_with(cell: Cell, e: Error) -> bool {
        is_utf8_error(e)
    }

    fn from_column(stmt: &'stmt Statement<'_>, index: ty::Text) -> (r: Result<Self, Error>) {
        text_str(stmt, &index)
    }
}

impl<'stmt> FromColumn<'stmt> for String {
    type Type = ty::Text;

    open spec fn accepts(cell: Cell) -> bool {
        cell matches Cell::Text(b) && valid_utf8(b)
    }

    open spec fn decodes_to(cell: Cell, value: Self) -> bool {
        cell == Cell::Text(encode_utf8(value@))
    }

    open spec fn fails_with(cell: Cell, e: Error) -> bool {
        is_utf8_error(e)
    }

    fn from_column(stmt: &'stmt Statement<'_>, index: ty::Text) -> (r: Result<Self, Error>) {
        let s = text_str(stmt, &index)?;
        Ok(String::from_str(s))
    }
}

impl<'stmt> FromColumn<'stmt> for &'stmt [u8] {
    type Type = ty::Blob;

    open spec fn accepts(cell: Cell) -> bool {
        true
    }

    open spec fn decodes_to(cell: Cell, value: Self) -> bool {
        cell == Cell::Blob(value@)
    }

    open spec fn fails_with(cell: Cell, e: Error) -> bool {
        false
    }

    fn from_column(stmt: &'stmt Statement<'_>, index: ty::Blob) -> (r: Result<Self, Error>) {
        Ok(blob_bytes(stmt, &index))
    }
}

impl<'stmt> FromColumn<'stmt> for Vec<u8> {
    type Type = ty::Blob;

    open spec fn accepts(cell: Cell) -> bool {
        true
    }

    open spec fn decodes_to(cell: Cell, value: Self) -> bool {
        cell == Cell::Blob(value@)
    }

    open spec fn fails_with(cell: Cell, e: Error) -> bool {
        false
    }

    fn from_column(stmt: &'stmt Statement<'_>, index: ty::Blob) -> (r: Result<Self, Error>) {
        Ok(slice_to_vec(blob_bytes(stmt, &index)))
    }
}

impl<'stmt, const N: usize> FromColumn<'stmt> for FixedBlob<N> {
    type Type = ty::Blob;

    open spec fn accepts(cell: Cell) -> bool {
        cell matches Cell::Blob(b) && b.len() <= N
    }

    open spec fn decodes_to(cell: Cell, value: Self) -> bool {
        cell == Cell::Blob(value@)
    }

    open spec fn fails_with(cell: Cell, e: Error) -> bool {
        cell matches Cell::Blob(b) && is_capacity_error(e, b.len(), N as nat)
    }

    fn from_column(stmt: &'stmt Statement<'_>, index: ty::Blob) -> (r: Result<Self, Error>) {
        let bytes = blob_bytes(stmt, &index);
        match FixedBlob::try_from_slice(bytes) {
            Ok(b) => Ok(b),
            Err(e) => Err(Error::with_message(Code::MISMATCH, e.message())),
        }
    }
}

impl<'stmt, const N: usize> FromColumn<'stmt> for FixedText<N> {
    type Type = ty::Text;

    open spec fn accepts(cell: Cell) -> bool {
        cell matches Cell::Text(b) && valid_utf8(b) && b.len() <= N
    }

    open spec fn decodes_to(cell: Cell, value: Self) -> bool {
        cell == Cell::Text(value@)
    }

    open spec fn fails_with(cell: Cell, e: Error) -> bool {
        cell matches Cell::Text(b) && if valid_utf8(b) {
            is_capacity_error(e, b.len(), N as nat)
        } else {
            is_utf8_error(e)
        }
    }

    fn from_column(stmt: &'stmt Statement<'_>, index: ty::Text) -> (r: Result<Self, Error>) {
        let s = text_str(stmt, &index)?;
        match FixedText::try_from_str(s) {
            Ok(t) => Ok(t),
            Err(e) => Err(Error::with_message(Code::MISMATCH, e.message())),
        }
    }
}

impl<'stmt> FromColumn<'stmt> for Value<'stmt> {
    type Type = ty::Any;

    open spec fn accepts(cell: Cell) -> bool {
        !(cell is Null) && (cell matches Cell::Text(b) ==> valid_utf8(b))
    }

    open spec fn decodes_to(cell: Cell, value: Self) -> bool {
        match cell {
            Cell::Null => false,
            Cell::Integer(v) => value.kind_spec() == Kind::<'stmt>::Integer(v),
            Cell::Real(bits) => value.kind_spec() == Kind::<'stmt>::Float(bits),
            Cell::Text(b) => value.kind_spec() matches Kind::Text(s) && s.spec_bytes() == b,
            Cell::Blob(b) => value.kind_spec() matches Kind::Blob(s) && s@ == b,
        }
    }

    open spec fn fails_with(cell: Cell, e: Error) -> bool {
        is_utf8_error(e)
    }

    fn from_column(stmt: &'stmt Statement<'_>, index: ty::Any) -> (r: Result<Self, Error>) {
        let ghost cell = stmt.column_at(index.column());
        match index.into_kind() {
            AnyKind::Blob(i) => Ok(Value::blob(blob_bytes(stmt, &i))),
            AnyKind::Text(i) => Ok(Value::text(text_str(stmt, &i)?)),
            AnyKind::Float(i) => Ok(Value::float_bits(Real::from_column(stmt, i)?.to_bits())),
            AnyKind::Integer(i) => Ok(Value::integer(i64::from_column(stmt, i)?)),
        }
    }
}

impl<'stmt, T: FromColumn<'stmt>> FromColumn<'stmt> for Option<T> where T::Type: NotNull {
    type Type = ty::Nullable<T::Type>;

    open spec fn accepts(cell: Cell) -> bool {
        cell is Null || T::accepts(cell)
    }

    open spec fn decodes_to(cell: Cell, value: Self) -> bool {
        match value {
            None => cell is Null,
            Some(v) => !(cell is Null) && T::decodes_to(cell, v),
        }
    }

    open spec fn fails_with(cell: Cell, e: Error) -> bool {
        !(cell is Null) && T::fails_with(cell, e)
    }

    fn from_column(stmt: &'stmt Statement<'_>, index: ty::Nullable<T::Type>) -> (r: Result<Self, Error>) {
        match index.into_inner() {
            Some(i) => Ok(Some(T::from_column(stmt, i)?)),
            None => Ok(None),
        }
    }
}


/// A type that can be borrowed, unsized, from a column.
pub trait FromUnsizedColumn {
    /// The marker of the accepted column types.
    type Type: Type;

    /// Whether a column holding `cell`, which the marker accepts, can be
    /// borrowed rather than give an error.
    spec fn accepts(cell: Cell) -> bool;

    /// Whether `value` is what is borrowed from a column holding `cell`.
    spec fn borrows(cell: Cell, value: &Self) -> bool;

    /// Whether `e` is the error that borrowing from a column holding `cell`
    /// gives.
    spec fn fails_with(cell: Cell, e: Error) -> bool;

    /// Borrow the value of the column that `index` was checked against.
    fn from_unsized_column<'a>(stmt: &'a Statement<'_>, index: Self::Type) -> (r: Result<&'a Self, Error>)
        requires
            index.describes(stmt.column_at(index.column())),
        ensures
            r is Ok <==> Self::accepts(stmt.column_at(index.column())),
            r matches Ok(v) ==> Self::borrows(stmt.column_at(index.column()), v),
            r matches Err(e) ==> Self::fails_with(stmt.column_at(index.column()), e),
    ;
}

impl FromUnsizedColumn for str {
    type Type = ty::Text;

    open spec fn accepts(cell: Cell) -> bool {
        cell matches Cell::Text(b) && valid_utf8(b)
    }

    open spec fn borrows(cell: Cell, value: &Self) -> bool {
        cell == Cell::Text(value.spec_bytes())
    }

    open spec fn fails_with(cell: Cell, e: Error) -> bool {
        is_utf8_error(e)
    }

    fn from_unsized_column<'a>(stmt: &'a Statement<'_>, index: ty::Text) -> (r: Result<&'a Self, Error>) {
        text_str(stmt, &index)
    }
}

impl FromUnsizedColumn for [u8] {
    type Type = ty::Blob;

    open spec fn accepts(cell: Cell) -> bool {
        true
    }

    open spec fn borrows(cell: Cell, value: &Self) -> bool {
        cell == Cell::Blob(value@)
    }

    open spec fn fails_with(cell: Cell, e: Error) -> bool {
        false
    }

    fn from_unsized_column<'a>(stmt: &'a Statement<'_>, index: ty::Blob) -> (r: Result<&'a Self, Error>) {
        Ok(blob_bytes(stmt, &index))
    }
}

/// Whether `r` is what borrowing a column holding `cell` as a `T` gives: a
/// `MISMATCH` error when the marker of `T` does not accept the column.
pub open spec fn borrow_as<T: FromUnsizedColumn + ?Sized>(cell: Cell, r: Result<&T, Error>) -> bool {
    if <T::Type as Type>::admits(cell) {
        &&& (r is Ok <==> T::accepts(cell))
        &&& match r {
            Ok(v) => T::borrows(cell, v),
            Err(e) => T::fails_with(cell, e),
        }
    } else {
        r matches Err(e) && e.code_spec() == Code::MISMATCH
    }
}

} // verus!
