//! Laws of reading integer columns: an integer column reads as an integer
//! type exactly when its value is one of that type's values, and then as
//! that very value; any other value, and any column that is not an
//! integer, is a `MISMATCH`.

use vstd::prelude::*;

use crate::bind::BindValue;
use crate::code::Code;
use crate::error::Error;
use crate::from_column::{conversion_message, read_as};
use crate::value::Cell;

verus! {

/// An integer column holding `v` reads as a `i8` exactly when
/// `-128 <= v <= 127`, and then as `v` itself.
pub proof fn lemma_i8_reads_its_range(v: i64, r: Result<i8, Error>)
    requires
        read_as::<i8>(Cell::Integer(v), r),
    ensures
        r is Ok <==> -128 <= v <= 127,
        r matches Ok(x) ==> x as int == v as int,
        r matches Err(e) ==> e.code_spec() == Code::MISMATCH && e.message_spec() == conversion_message(
            v,
            "i8"@,
        ),
{
}

/// Every `i8` that fits in a column reads back from an integer column
/// holding it.
pub proof fn lemma_i8_reads_every_value(x: i8)
    requires
        -128 <= x <= 127,
    ensures
        read_as::<i8>(Cell::Integer(x as i64), Ok(x)),
{
}

/// A column that is not an integer does not read as a `i8`.
pub proof fn lemma_i8_needs_an_integer(cell: Cell, r: Result<i8, Error>)
    requires
        !(cell is Integer),
        read_as::<i8>(cell, r),
    ensures
        r matches Err(e) && e.code_spec() == Code::MISMATCH,
{
}

/// An integer column holding `v` reads as a `i16` exactly when
/// `-32768 <= v <= 32767`, and then as `v` itself.
pub proof fn lemma_i16_reads_its_range(v: i64, r: Result<i16, Error>)
    requires
        read_as::<i16>(Cell::Integer(v), r),
    ensures
        r is Ok <==> -32768 <= v <= 32767,
        r matches Ok(x) ==> x as int == v as int,
        r matches Err(e) ==> e.code_spec() == Code::MISMATCH && e.message_spec() == conversion_message(
            v,
            "i16"@,
        ),
{
}

/// Every `i16` that fits in a column reads back from an integer column
/// holding it.
pub proof fn lemma_i16_reads_every_value(x: i16)
    requires
        -32768 <= x <= 32767,
    ensures
        read_as::<i16>(Cell::Integer(x as i64), Ok(x)),
{
}

/// A column that is not an integer does not read as a `i16`.
pub proof fn lemma_i16_needs_an_integer(cell: Cell, r: Result<i16, Error>)
    requires
        !(cell is Integer),
        read_as::<i16>(cell, r),
    ensures
        r matches Err(e) && e.code_spec() == Code::MISMATCH,
{
}

/// An integer column holding `v` reads as a `i32` exactly when
/// `-2147483648 <= v <= 2147483647`, and then as `v` itself.
pub proof fn lemma_i32_reads_its_range(v: i64, r: Result<i32, Error>)
    requires
        read_as::<i32>(Cell::Integer(v), r),
    ensures
        r is Ok <==> -2147483648 <= v <= 2147483647,
        r matches Ok(x) ==> x as int == v as int,
        r matches Err(e) ==> e.code_spec() == Code::MISMATCH && e.message_spec() == conversion_message(
            v,
            "i32"@,
        ),
{
}

/// Every `i32` that fits in a column reads back from an integer column
/// holding it.
pub proof fn lemma_i32_reads_every_value(x: i32)
    requires
        -2147483648 <= x <= 2147483647,
    ensures
        read_as::<i32>(Cell::Integer(x as i64), Ok(x)),
{
}

/// A column that is not an integer does not read as a `i32`.
pub proof fn lemma_i32_needs_an_integer(cell: Cell, r: Result<i32, Error>)
    requires
        !(cell is Integer),
        read_as::<i32>(cell, r),
    ensures
        r matches Err(e) && e.code_spec() == Code::MISMATCH,
{
}

/// An integer column holding `v` reads as a `i64` exactly when
/// `-9223372036854775808 <= v <= 9223372036854775807`, and then as `v` itself.
pub proof fn lemma_i64_reads_its_range(v: i64, r: Result<i64, Error>)
    requires
        read_as::<i64>(Cell::Integer(v), r),
    ensures
        r is Ok <==> -9223372036854775808 <= v <= 9223372036854775807,
        r matches Ok(x) ==> x as int == v as int,
{
}

/// Every `i64` that fits in a column reads back from an integer column
/// holding it.
pub proof fn lemma_i64_reads_every_value(x: i64)
    requires
        -9223372036854775808 <= x <= 9223372036854775807,
    ensures
        read_as::<i64>(Cell::Integer(x as i64), Ok(x)),
{
}

/// A column that is not an integer does not read as a `i64`.
pub proof fn lemma_i64_needs_an_integer(cell: Cell, r: Result<i64, Error>)
    requires
        !(cell is Integer),
        read_as::<i64>(cell, r),
    ensures
        r matches Err(e) && e.code_spec() == Code::MISMATCH,
{
}

/// An integer column holding `v` reads as a `i128` exactly when
/// `-9223372036854775808 <= v <= 9223372036854775807`, and then as `v` itself.
pub proof fn lemma_i128_reads_its_range(v: i64, r: Result<i128, Error>)
    requires
        read_as::<i128>(Cell::Integer(v), r),
    ensures
        r is Ok <==> -9223372036854775808 <= v <= 9223372036854775807,
        r matches Ok(x) ==> x as int == v as int,
{
}

/// Every `i128` that fits in a column reads back from an integer column
/// holding it.
pub proof fn lemma_i128_reads_every_value(x: i128)
    requires
        -9223372036854775808 <= x <= 9223372036854775807,
    ensures
        read_as::<i128>(Cell::Integer(x as i64), Ok(x)),
{
}

/// A column that is not an integer does not read as a `i128`.
pub proof fn lemma_i128_needs_an_integer(cell: Cell, r: Result<i128, Error>)
    requires
        !(cell is Integer),
        read_as::<i128>(cell, r),
    ensures
        r matches Err(e) && e.code_spec() == Code::MISMATCH,
{
}

/// An integer column holding `v` reads as a `u8` exactly when
/// `0 <= v <= 255`, and then as `v` itself.
pub proof fn lemma_u8_reads_its_range(v: i64, r: Result<u8, Error>)
    requires
        read_as::<u8>(Cell::Integer(v), r),
    ensures
        r is Ok <==> 0 <= v <= 255,
        r matches Ok(x) ==> x as int == v as int,
        r matches Err(e) ==> e.code_spec() == Code::MISMATCH && e.message_spec() == conversion_message(
            v,
            "u8"@,
        ),
{
}

/// Every `u8` that fits in a column reads back from an integer column
/// holding it.
pub proof fn lemma_u8_reads_every_value(x: u8)
    requires
        0 <= x <= 255,
    ensures
        read_as::<u8>(Cell::Integer(x as i64), Ok(x)),
{
}

/// A column that is not an integer does not read as a `u8`.
pub proof fn lemma_u8_needs_an_integer(cell: Cell, r: Result<u8, Error>)
    requires
        !(cell is Integer),
        read_as::<u8>(cell, r),
    ensures
        r matches Err(e) && e.code_spec() == Code::MISMATCH,
{
}

/// An integer column holding `v` reads as a `u16` exactly when
/// `0 <= v <= 65535`, and then as `v` itself.
pub proof fn lemma_u16_reads_its_range(v: i64, r: Result<u16, Error>)
    requires
        read_as::<u16>(Cell::Integer(v), r),
    ensures
        r is Ok <==> 0 <= v <= 65535,
        r matches Ok(x) ==> x as int == v as int,
        r matches Err(e) ==> e.code_spec() == Code::MISMATCH && e.message_spec() == conversion_message(
            v,
            "u16"@,
        ),
{
}

/// Every `u16` that fits in a column reads back from an integer column
/// holding it.
pub proof fn lemma_u16_reads_every_value(x: u16)
    requires
        0 <= x <= 65535,
    ensures
        read_as::<u16>(Cell::Integer(x as i64), Ok(x)),
{
}

/// A column that is not an integer does not read as a `u16`.
pub proof fn lemma_u16_needs_an_integer(cell: Cell, r: Result<u16, Error>)
    requires
        !(cell is Integer),
        read_as::<u16>(cell, r),
    ensures
        r matches Err(e) && e.code_spec() == Code::MISMATCH,
{
}

/// An integer column holding `v` reads as a `u32` exactly when
/// `0 <= v <= 4294967295`, and then as `v` itself.
pub proof fn lemma_u32_reads_its_range(v: i64, r: Result<u32, Error>)
    requires
        read_as::<u32>(Cell::Integer(v), r),
    ensures
        r is Ok <==> 0 <= v <= 4294967295,
        r matches Ok(x) ==> x as int == v as int,
        r matches Err(e) ==> e.code_spec() == Code::MISMATCH && e.message_spec() == conversion_message(
            v,
            "u32"@,
        ),
{
}

/// Every `u32` that fits in a column reads back from an integer column
/// holding it.
pub proof fn lemma_u32_reads_every_value(x: u32)
    requires
        0 <= x <= 4294967295,
    ensures
        read_as::<u32>(Cell::Integer(x as i64), Ok(x)),
{
}

/// A column that is not an integer does not read as a `u32`.
pub proof fn lemma_u32_needs_an_integer(cell: Cell, r: Result<u32, Error>)
    requires
        !(cell is Integer),
        read_as::<u32>(cell, r),
    ensures
        r matches Err(e) && e.code_spec() == Code::MISMATCH,
{
}

/// An integer column holding `v` reads as a `u64` exactly when
/// `0 <= v <= 9223372036854775807`, and then as `v` itself.
pub proof fn lemma_u64_reads_its_range(v: i64, r: Result<u64, Error>)
    requires
        read_as::<u64>(Cell::Integer(v), r),
    ensures
        r is Ok <==> 0 <= v <= 9223372036854775807,
        r matches Ok(x) ==> x as int == v as int,
        r matches Err(e) ==> e.code_spec() == Code::MISMATCH && e.message_spec() == conversion_message(
            v,
            "u64"@,
        ),
{
}

/// Every `u64` that fits in a column reads back from an integer column
/// holding it.
pub proof fn lemma_u64_reads_every_value(x: u64)
    requires
        0 <= x <= 9223372036854775807,
    ensures
        read_as::<u64>(Cell::Integer(x as i64), Ok(x)),
{
}

/// A column that is not an integer does not read as a `u64`.
pub proof fn lemma_u64_needs_an_integer(cell: Cell, r: Result<u64, Error>)
    requires
        !(cell is Integer),
        read_as::<u64>(cell, r),
    ensures
        r matches Err(e) && e.code_spec() == Code::MISMATCH,
{
}

/// An integer column holding `v` reads as a `u128` exactly when
/// `0 <= v <= 9223372036854775807`, and then as `v` itself.
pub proof fn lemma_u128_reads_its_range(v: i64, r: Result<u128, Error>)
    requires
        read_as::<u128>(Cell::Integer(v), r),
    ensures
        r is Ok <==> 0 <= v <= 9223372036854775807,
        r matches Ok(x) ==> x as int == v as int,
        r matches Err(e) ==> e.code_spec() == Code::MISMATCH && e.message_spec() == conversion_message(
            v,
            "u128"@,
        ),
{
}

/// Every `u128` that fits in a column reads back from an integer column
/// holding it.
pub proof fn lemma_u128_reads_every_value(x: u128)
    requires
        0 <= x <= 9223372036854775807,
    ensures
        read_as::<u128>(Cell::Integer(x as i64), Ok(x)),
{
}

/// A column that is not an integer does not read as a `u128`.
pub proof fn lemma_u128_needs_an_integer(cell: Cell, r: Result<u128, Error>)
    requires
        !(cell is Integer),
        read_as::<u128>(cell, r),
    ensures
        r matches Err(e) && e.code_spec() == Code::MISMATCH,
{
}


/// A `i8` binds as an integer parameter holding that very value.
pub proof fn lemma_i8_binds_as_integer(x: i8)
    ensures
        x.bound_cell() matches Some(Cell::Integer(v)) && v as int == x as int,
{
}

/// A `i16` binds as an integer parameter holding that very value.
pub proof fn lemma_i16_binds_as_integer(x: i16)
    ensures
        x.bound_cell() matches Some(Cell::Integer(v)) && v as int == x as int,
{
}

/// A `i32` binds as an integer parameter holding that very value.
pub proof fn lemma_i32_binds_as_integer(x: i32)
    ensures
        x.bound_cell() matches Some(Cell::Integer(v)) && v as int == x as int,
{
}

/// A `i64` binds as an integer parameter holding that very value.
pub proof fn lemma_i64_binds_as_integer(x: i64)
    ensures
        x.bound_cell() matches Some(Cell::Integer(v)) && v as int == x as int,
{
}

/// A `u8` binds as an integer parameter holding that very value.
pub proof fn lemma_u8_binds_as_integer(x: u8)
    ensures
        x.bound_cell() matches Some(Cell::Integer(v)) && v as int == x as int,
{
}

/// A `u16` binds as an integer parameter holding that very value.
pub proof fn lemma_u16_binds_as_integer(x: u16)
    ensures
        x.bound_cell() matches Some(Cell::Integer(v)) && v as int == x as int,
{
}

/// A `u32` binds as an integer parameter holding that very value.
pub proof fn lemma_u32_binds_as_integer(x: u32)
    ensures
        x.bound_cell() matches Some(Cell::Integer(v)) && v as int == x as int,
{
}

/// A `u64` binds as an integer parameter holding that very value when
/// `0 <= x <= 9223372036854775807`; any other is refused with `MISMATCH`.
pub proof fn lemma_u64_binds_as_integer(x: u64, e: Error)
    ensures
        0 <= x <= 9223372036854775807 ==> (x.bound_cell() matches Some(Cell::Integer(v)) && v as int == x as int),
        !(0 <= x <= 9223372036854775807) ==> x.bound_cell() is None,
        !(0 <= x <= 9223372036854775807) && x.refused_with(e) ==> e.code_spec() == Code::MISMATCH,
{
}

/// A `u128` binds as an integer parameter holding that very value when
/// `0 <= x <= 9223372036854775807`; any other is refused with `MISMATCH`.
pub proof fn lemma_u128_binds_as_integer(x: u128, e: Error)
    ensures
        0 <= x <= 9223372036854775807 ==> (x.bound_cell() matches Some(Cell::Integer(v)) && v as int == x as int),
        !(0 <= x <= 9223372036854775807) ==> x.bound_cell() is None,
        !(0 <= x <= 9223372036854775807) && x.refused_with(e) ==> e.code_spec() == Code::MISMATCH,
{
}

/// A `i128` binds as an integer parameter holding that very value when
/// `-9223372036854775808 <= x <= 9223372036854775807`; any other is refused with `MISMATCH`.
pub proof fn lemma_i128_binds_as_integer(x: i128, e: Error)
    ensures
        -9223372036854775808 <= x <= 9223372036854775807 ==> (x.bound_cell() matches Some(Cell::Integer(v)) && v as int == x as int),
        !(-9223372036854775808 <= x <= 9223372036854775807) ==> x.bound_cell() is None,
        !(-9223372036854775808 <= x <= 9223372036854775807) && x.refused_with(e) ==> e.code_spec() == Code::MISMATCH,
{
}

} // verus!
