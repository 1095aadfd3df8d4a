//! Values as they are stored in SQLite.

use vstd::prelude::*;

verus! {

/// The type of a value in a column.
#[allow(non_camel_case_types)]
#[derive(Clone, Copy, Debug, PartialEq, Eq, Structural)]
pub enum ValueType {
    /// A signed integer.
    INTEGER,
    /// A floating point number.
    FLOAT,
    /// A text string.
    TEXT,
    /// A blob of bytes.
    BLOB,
    /// The NULL value.
    NULL,
}

impl ValueType {
    /// The name of this type, as SQLite spells it.
    pub fn name(&self) -> (s: &'static str)
        ensures
            s@ == value_type_name(*self),
    {
        match self {
            ValueType::INTEGER => "INTEGER",
            ValueType::FLOAT => "FLOAT",
            ValueType::TEXT => "TEXT",
            ValueType::BLOB => "BLOB",
            ValueType::NULL => "NULL",
        }
    }

    /// The raw SQLite code of this type.
    pub fn raw(&self) -> (r: i32)
        ensures
            r == value_type_raw(*self),
    {
        match self {
            ValueType::INTEGER => 1,
            ValueType::FLOAT => 2,
            ValueType::TEXT => 3,
            ValueType::BLOB => 4,
            ValueType::NULL => 5,
        }
    }
}

/// The name of a type, as SQLite spells it.
pub open spec fn value_type_name(t: ValueType) -> Seq<char> {
    match t {
        ValueType::INTEGER => "INTEGER"@,
        ValueType::FLOAT => "FLOAT"@,
        ValueType::TEXT => "TEXT"@,
        ValueType::BLOB => "BLOB"@,
        ValueType::NULL => "NULL"@,
    }
}

/// The raw SQLite code of a type.
pub open spec fn value_type_raw(t: ValueType) -> i32 {
    match t {
        ValueType::INTEGER => 1i32,
        ValueType::FLOAT => 2i32,
        ValueType::TEXT => 3i32,
        ValueType::BLOB => 4i32,
        ValueType::NULL => 5i32,
    }
}

/// A value as SQLite stores it, as a mathematical object. A floating point
/// number is held by the bits of its IEEE 754 encoding.
pub enum Cell {
    /// The NULL value.
    Null,
    /// A signed integer.
    Integer(i64),
    /// A floating point number, by its bits.
    Real(u64),
    /// A text string, by its bytes.
    Text(Seq<u8>),
    /// A blob.
    Blob(Seq<u8>),
}

/// The type of a stored value.
pub open spec fn cell_type(c: Cell) -> ValueType {
    match c {
        Cell::Null => ValueType::NULL,
        Cell::Integer(_) => ValueType::INTEGER,
        Cell::Real(_) => ValueType::FLOAT,
        Cell::Text(_) => ValueType::TEXT,
        Cell::Blob(_) => ValueType::BLOB,
    }
}

/// A value of a column in the current row of a statement, as read from
/// SQLite.
#[derive(Debug)]
pub enum ColumnValue {
    /// The NULL value.
    Null,
    /// A signed integer.
    Integer(i64),
    /// A floating point number, by the bits of its encoding.
    Real(u64),
    /// A text string, by its bytes.
    Text(Vec<u8>),
    /// A blob.
    Blob(Vec<u8>),
}

impl View for ColumnValue {
    type V = Cell;

    open spec fn view(&self) -> Cell {
        match self {
            ColumnValue::Null => Cell::Null,
            ColumnValue::Integer(v) => Cell::Integer(*v),
            ColumnValue::Real(v) => Cell::Real(*v),
            ColumnValue::Text(v) => Cell::Text(v@),
            ColumnValue::Blob(v) => Cell::Blob(v@),
        }
    }
}

impl ColumnValue {
    /// The type of this value.
    pub fn value_type(&self) -> (t: ValueType)
        ensures
            t == cell_type(self@),
    {
        match self {
            ColumnValue::Null => ValueType::NULL,
            ColumnValue::Integer(_) => ValueType::INTEGER,
            ColumnValue::Real(_) => ValueType::FLOAT,
            ColumnValue::Text(_) => ValueType::TEXT,
            ColumnValue::Blob(_) => ValueType::BLOB,
        }
    }
}

/// A marker type representing NULL.
///
/// This is both a value and type marker representing NULL. To optionally
/// support NULL values, consider using `Option<T>` instead.
#[derive(Clone, Copy, Debug, PartialEq, Eq, Hash, Default, Structural)]
pub struct Null;

/// A floating point number, held by the bits of its IEEE 754 encoding.
#[derive(Clone, Copy, Debug, PartialEq, Eq, Structural)]
pub struct Real {
    bits: u64,
}

impl Real {
    /// The bits of the encoding.
    pub closed spec fn bits_spec(&self) -> u64 {
        self.bits
    }

    /// The number with the given encoding.
    pub fn from_bits(bits: u64) -> (r: Real)
        ensures
            r.bits_spec() == bits,
    {
        Real { bits }
    }

    /// The bits of the encoding.
    pub fn to_bits(&self) -> (b: u64)
        ensures
            b == self.bits_spec(),
    {
        self.bits
    }
}

/// The kind of a dynamically typed value.
#[derive(Clone, Copy, Debug, PartialEq)]
pub enum Kind<'stmt> {
    /// A signed integer.
    Integer(i64),
    /// A floating point number, by the bits of its encoding.
    Float(u64),
    /// A text string.
    Text(&'stmt str),
    /// A blob.
    Blob(&'stmt [u8]),
}

/// A dynamically typed value.
#[derive(Clone, Copy, Debug, PartialEq)]
pub struct Value<'stmt> {
    kind: Kind<'stmt>,
}

impl<'stmt> Value<'stmt> {
    /// The kind of this value.
    pub closed spec fn kind_spec(&self) -> Kind<'stmt> {
        self.kind
    }

    /// The kind of this value.
    pub fn kind(&self) -> (k: Kind<'stmt>)
        ensures
            k == self.kind_spec(),
    {
        self.kind
    }

    /// Construct an integer value.
    pub fn integer(value: i64) -> (v: Self)
        ensures
            v.kind_spec() == Kind::<'stmt>::Integer(value),
    {
        Value { kind: Kind::Integer(value) }
    }

    /// Construct a floating point value from the bits of its encoding.
    pub fn float_bits(bits: u64) -> (v: Self)
        ensures
            v.kind_spec() == Kind::<'stmt>::Float(bits),
    {
        Value { kind: Kind::Float(bits) }
    }

    /// Construct a text value.
    pub fn text(value: &'stmt str) -> (v: Self)
        ensures
            v.kind_spec() == Kind::Text(value),
    {
        Value { kind: Kind::Text(value) }
    }

    /// Construct a blob value.
    pub fn blob(value: &'stmt [u8]) -> (v: Self)
        ensures
            v.kind_spec() == Kind::Blob(value),
    {
        Value { kind: Kind::Blob(value) }
    }

    /// The integer, if this is an integer value.
    pub fn as_integer(&self) -> (r: Option<i64>)
        ensures
            r == (match self.kind_spec() {
                Kind::Integer(v) => Some(v),
                _ => None,
            }),
    {
        if let Kind::Integer(value) = self.kind {
            return Some(value);
        }
        None
    }

    /// The bits of the floating point number, if this is a floating point
    /// value.
    pub fn as_float_bits(&self) -> (r: Option<u64>)
        ensures
            r == (match self.kind_spec() {
                Kind::Float(v) => Some(v),
                _ => None,
            }),
    {
        if let Kind::Float(value) = self.kind {
            return Some(value);
        }
        None
    }

    /// The text, if this is a text value.
    pub fn as_text(&self) -> (r: Option<&'stmt str>)
        ensures
            r == (match self.kind_spec() {
                Kind::Text(v) => Some(v),
                _ => None,
            }),
    {
        if let Kind::Text(value) = self.kind {
            return Some(value);
        }
        None
    }

    /// The bytes, if this is a blob value.
    pub fn as_blob(&self) -> (r: Option<&'stmt [u8]>)
        ensures
            r == (match self.kind_spec() {
                Kind::Blob(v) => Some(v),
                _ => None,
            }),
    {
        if let Kind::Blob(value) = self.kind {
            return Some(value);
        }
        None
    }

    /// The type of this value.
    pub fn ty(&self) -> (t: ValueType)
        ensures
            t == (match self.kind_spec() {
                Kind::Integer(_) => ValueType::INTEGER,
                Kind::Float(_) => ValueType::FLOAT,
                Kind::Text(_) => ValueType::TEXT,
                Kind::Blob(_) => ValueType::BLOB,
            }),
    {
        match self.kind {
            Kind::Blob(_) => ValueType::BLOB,
            Kind::Float(_) => ValueType::FLOAT,
            Kind::Integer(_) => ValueType::INTEGER,
            Kind::Text(_) => ValueType::TEXT,
        }
    }
}

} // verus!
