//! Marker types that say which column types a column read accepts.
//!
//! Reading a column first checks its type through one of these markers,
//! and the marker is then handed to `FromColumn::from_column`. The check
//! is strict: no conversion between types takes place.

use vstd::prelude::*;

use crate::code::Code;
use crate::error::Error;
use crate::statement::Statement;
use crate::value::{cell_type, value_type_name, Cell, ColumnValue, ValueType};

verus! {

/// The message of a failed type check.
pub open spec fn type_mismatch_message(expected: ValueType, found: ValueType) -> Seq<char> {
    "expected column type "@ + value_type_name(expected) + " but found found "@
        + value_type_name(found)
}

/// Check that column `index` of the current row has the expected type.
pub fn type_check(stmt: &Statement<'_>, index: i32, expected: ValueType) -> (r: Result<(), Error>)
    ensures
        r is Ok <==> cell_type(stmt.column_at(index as int)) == expected,
        r matches Err(e) ==> e.code_spec() == Code::MISMATCH && e.message_spec()
            == type_mismatch_message(expected, cell_type(stmt.column_at(index as int))),
{
    let found = stmt.column_type(index);
    if found == expected {
        Ok(())
    } else {
        let mut m = String::from_str("expected column type ");
        m.append(expected.name());
        m.append(" but found found ");
        m.append(found.name());
        Err(Error::with_message(Code::MISMATCH, m))
    }
}

/// A marker for the column types a read accepts.
pub trait Type: Sized {
    /// Whether the read accepts a column holding this value.
    spec fn admits(cell: Cell) -> bool;

    /// The column this marker was checked against.
    spec fn column(&self) -> int;

    /// Whether this marker describes the value it was checked against.
    spec fn describes(&self, cell: Cell) -> bool;

    /// Check the type of column `index` of the current row.
    fn check(stmt: &Statement<'_>, index: i32) -> (r: Result<Self, Error>)
        ensures
            r is Ok <==> Self::admits(stmt.column_at(index as int)),
            r matches Ok(t) ==> t.column() == index as int && t.describes(stmt.column_at(index as int)),
            r matches Err(e) ==> e.code_spec() == Code::MISMATCH,
    ;
}

/// A marker for the types that are not NULL, so that `Nullable` can add
/// NULL to them.
pub trait NotNull: Type {
    /// A type that is not NULL does not admit NULL.
    proof fn lemma_rejects_null()
        ensures
            !Self::admits(Cell::Null),
    ;
}

/// An integer column.
pub struct Integer {
    index: i32,
}

impl Integer {
    /// The column this marker was checked against.
    pub fn index(&self) -> (i: i32)
        ensures
            i == self.column(),
    {
        self.index
    }
}

impl Type for Integer {
    open spec fn admits(cell: Cell) -> bool {
        cell is Integer
    }

    closed spec fn column(&self) -> int {
        self.index as int
    }

    open spec fn describes(&self, cell: Cell) -> bool {
        cell is Integer
    }

    fn check(stmt: &Statement<'_>, index: i32) -> (r: Result<Self, Error>) {
        type_check(stmt, index, ValueType::INTEGER)?;
        Ok(Integer { index })
    }
}

impl NotNull for Integer {
    proof fn lemma_rejects_null() {
    }
}

/// A floating point column.
pub struct Float {
    index: i32,
}

impl Float {
    /// The column this marker was checked against.
    pub fn index(&self) -> (i: i32)
        ensures
            i == self.column(),
    {
        self.index
    }
}

impl Type for Float {
    open spec fn admits(cell: Cell) -> bool {
        cell is Real
    }

    closed spec fn column(&self) -> int {
        self.index as int
    }

    open spec fn describes(&self, cell: Cell) -> bool {
        cell is Real
    }

    fn check(stmt: &Statement<'_>, index: i32) -> (r: Result<Self, Error>) {
        type_check(stmt, index, ValueType::FLOAT)?;
        Ok(Float { index })
    }
}

impl NotNull for Float {
    proof fn lemma_rejects_null() {
    }
}

/// A text column, with the length of the text in bytes.
pub struct Text {
    index: i32,
    len: usize,
}

impl Text {
    /// The length of the text in bytes.
    pub closed spec fn len_spec(&self) -> usize {
        self.len
    }

    /// The column this marker was checked against.
    pub fn index(&self) -> (i: i32)
        ensures
            i == self.column(),
    {
        self.index
    }

    /// The length of the text in bytes.
    pub fn len(&self) -> (l: usize)
        ensures
            l == self.len_spec(),
    {
        self.len
    }

    /// Whether the text is empty.
    pub fn is_empty(&self) -> (b: bool)
        ensures
            b == (self.len_spec() == 0),
    {
        self.len == 0
    }
}

impl Type for Text {
    open spec fn admits(cell: Cell) -> bool {
        cell is Text
    }

    closed spec fn column(&self) -> int {
        self.index as int
    }

    open spec fn describes(&self, cell: Cell) -> bool {
        cell matches Cell::Text(b) && b.len() == self.len_spec()
    }

    fn check(stmt: &Statement<'_>, index: i32) -> (r: Result<Self, Error>) {
        type_check(stmt, index, ValueType::TEXT)?;
        match stmt.column_value(index) {
            Some(ColumnValue::Text(bytes)) => Ok(Text { index, len: bytes.len() }),
            _ => {
                assert(false);
                Err(Error::new(Code::MISMATCH, "column is not text"))
            },
        }
    }
}

impl NotNull for Text {
    proof fn lemma_rejects_null() {
    }
}

/// A blob column, with the length of the blob in bytes.
pub struct Blob {
    index: i32,
    len: usize,
}

impl Blob {
    /// The length of the blob in bytes.
    pub closed spec fn len_spec(&self) -> usize {
        self.len
    }

    /// The column this marker was checked against.
    pub fn index(&self) -> (i: i32)
        ensures
            i == self.column(),
    {
        self.index
    }

    /// The length of the blob in bytes.
    pub fn len(&self) -> (l: usize)
        ensures
            l == self.len_spec(),
    {
        self.len
    }

    /// Whether the blob is empty.
    pub fn is_empty(&self) -> (b: bool)
        ensures
            b == (self.len_spec() == 0),
    {
        self.len == 0
    }
}

impl Type for Blob {
    open spec fn admits(cell: Cell) -> bool {
        cell is Blob
    }

    closed spec fn column(&self) -> int {
        self.index as int
    }

    open spec fn describes(&self, cell: Cell) -> bool {
        cell matches Cell::Blob(b) && b.len() == self.len_spec()
    }

    fn check(stmt: &Statement<'_>, index: i32) -> (r: Result<Self, Error>) {
        type_check(stmt, index, ValueType::BLOB)?;
        match stmt.column_value(index) {
            Some(ColumnValue::Blob(bytes)) => Ok(Blob { index, len: bytes.len() }),
            _ => {
                assert(false);
                Err(Error::new(Code::MISMATCH, "column is not a blob"))
            },
        }
    }
}

impl NotNull for Blob {
    proof fn lemma_rejects_null() {
    }
}

/// A NULL column.
pub struct Null {
    index: i32,
}

impl Null {
    /// The column this marker was checked against.
    pub fn index(&self) -> (i: i32)
        ensures
            i == self.column(),
    {
        self.index
    }
}

impl Type for Null {
    open spec fn admits(cell: Cell) -> bool {
        cell is Null
    }

    closed spec fn column(&self) -> int {
        self.index as int
    }

    open spec fn describes(&self, cell: Cell) -> bool {
        cell is Null
    }

    fn check(stmt: &Statement<'_>, index: i32) -> (r: Result<Self, Error>) {
        type_check(stmt, index, ValueType::NULL)?;
        Ok(Null { index })
    }
}

/// The kind of a column accepted by `Any`.
pub enum AnyKind {
    /// A blob column.
    Blob(Blob),
    /// A text column.
    Text(Text),
    /// A floating point column.
    Float(Float),
    /// An integer column.
    Integer(Integer),
}

/// A column of any type.
pub struct Any {
    index: i32,
    kind: AnyKind,
}

impl Any {
    /// The kind of the column.
    pub closed spec fn kind_spec(&self) -> AnyKind {
        self.kind
    }

    /// The kind of the column.
    pub fn into_kind(self) -> (k: AnyKind)
        ensures
            k == self.kind_spec(),
    {
        self.kind
    }
}

impl Type for Any {
    open spec fn admits(cell: Cell) -> bool {
        !(cell is Null)
    }

    closed spec fn column(&self) -> int {
        self.index as int
    }

    open spec fn describes(&self, cell: Cell) -> bool {
        match self.kind_spec() {
            AnyKind::Blob(b) => b.describes(cell) && b.column() == self.column(),
            AnyKind::Text(t) => t.describes(cell) && t.column() == self.column(),
            AnyKind::Float(f) => f.describes(cell) && f.column() == self.column(),
            AnyKind::Integer(i) => i.describes(cell) && i.column() == self.column(),
        }
    }

    fn check(stmt: &Statement<'_>, index: i32) -> (r: Result<Self, Error>)
        ensures
            stmt.column_at(index as int) is Null ==> (r matches Err(e) && e.message_spec()
                == "dynamic value has unsupported column type NULL"@),
    {
        let kind = match stmt.column_type(index) {
            ValueType::BLOB => AnyKind::Blob(Blob::check(stmt, index)?),
            ValueType::TEXT => AnyKind::Text(Text::check(stmt, index)?),
            ValueType::FLOAT => AnyKind::Float(Float::check(stmt, index)?),
            ValueType::INTEGER => AnyKind::Integer(Integer::check(stmt, index)?),
            ValueType::NULL => {
                return Err(Error::new(Code::MISMATCH, "dynamic value has unsupported column type NULL"));
            },
        };
        Ok(Any { index, kind })
    }
}

impl NotNull for Any {
    proof fn lemma_rejects_null() {
    }
}

/// A column of type `T` or NULL.
pub struct Nullable<T: NotNull> {
    index: i32,
    inner: Option<T>,
}

impl<T: NotNull> Nullable<T> {
    /// The marker of the column unless it is NULL.
    pub closed spec fn inner_spec(&self) -> Option<T> {
        self.inner
    }

    /// The marker of the column unless it is NULL.
    pub fn into_inner(self) -> (r: Option<T>)
        ensures
            r == self.inner_spec(),
    {
        self.inner
    }
}

impl<T: NotNull> Type for Nullable<T> {
    open spec fn admits(cell: Cell) -> bool {
        cell is Null || T::admits(cell)
    }

    closed spec fn column(&self) -> int {
        self.index as int
    }

    open spec fn describes(&self, cell: Cell) -> bool {
        match self.inner_spec() {
            None => cell is Null,
            Some(t) => t.describes(cell) && t.column() == self.column() && !(cell is Null),
        }
    }

    fn check(stmt: &Statement<'_>, index: i32) -> (r: Result<Self, Error>) {
        if stmt.column_type(index) == ValueType::NULL {
            return Ok(Nullable { index, inner: None });
        }
        let t = T::check(stmt, index)?;
        Ok(Nullable { index, inner: Some(t) })
    }
}

} // verus!
