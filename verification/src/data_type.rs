//! A universal enumeration of data types and a compile-time mapping from
//! Rust types onto it.

use vstd::prelude::*;

use bigdecimal::BigDecimal;
use chrono::NaiveDate;
use chrono::NaiveDateTime;
use chrono::NaiveTime;
use num_bigint::BigInt;

verus! {

/// Universal data type enumeration for cross-module type representation.
///
/// Covers the basic scalar types, text, the common date and time types and
/// the arbitrary-precision number types. Each variant has a canonical
/// lower-case name, given by [`DataType::as_str`].
#[derive(Debug, Clone, Copy, PartialEq, Eq, Hash)]
pub enum DataType {
    /// Boolean type.
    Bool,
    /// Character type.
    Char,
    /// 8-bit signed integer.
    Int8,
    /// 16-bit signed integer.
    Int16,
    /// 32-bit signed integer.
    Int32,
    /// 64-bit signed integer.
    Int64,
    /// 128-bit signed integer.
    Int128,
    /// 8-bit unsigned integer.
    UInt8,
    /// 16-bit unsigned integer.
    UInt16,
    /// 32-bit unsigned integer.
    UInt32,
    /// 64-bit unsigned integer.
    UInt64,
    /// 128-bit unsigned integer.
    UInt128,
    /// 32-bit floating point number.
    Float32,
    /// 64-bit floating point number.
    Float64,
    /// String type.
    String,
    /// Date without time zone.
    Date,
    /// Time of day without time zone.
    Time,
    /// Date and time without time zone.
    DateTime,
    /// A point on the UTC time line.
    Instant,
    /// Arbitrary-precision integer.
    BigInteger,
    /// Arbitrary-precision decimal number.
    BigDecimal,
}

impl DataType {
    /// The canonical name of the data type.
    pub open spec fn spec_name(self) -> Seq<char> {
        match self {
            DataType::Bool => "bool"@,
            DataType::Char => "char"@,
            DataType::Int8 => "int8"@,
            DataType::Int16 => "int16"@,
            DataType::Int32 => "int32"@,
            DataType::Int64 => "int64"@,
            DataType::Int128 => "int128"@,
            DataType::UInt8 => "uint8"@,
            DataType::UInt16 => "uint16"@,
            DataType::UInt32 => "uint32"@,
            DataType::UInt64 => "uint64"@,
            DataType::UInt128 => "uint128"@,
            DataType::Float32 => "float32"@,
            DataType::Float64 => "float64"@,
            DataType::String => "string"@,
            DataType::Date => "date"@,
            DataType::Time => "time"@,
            DataType::DateTime => "datetime"@,
            DataType::Instant => "instant"@,
            DataType::BigInteger => "biginteger"@,
            DataType::BigDecimal => "bigdecimal"@,
        }
    }

    /// Returns the canonical name of the data type.
    pub fn as_str(&self) -> (r: &'static str)
        ensures
            r@ == self.spec_name(),
    {
        match self {
            DataType::Bool => "bool",
            DataType::Char => "char",
            DataType::Int8 => "int8",
            DataType::Int16 => "int16",
            DataType::Int32 => "int32",
            DataType::Int64 => "int64",
            DataType::Int128 => "int128",
            DataType::UInt8 => "uint8",
            DataType::UInt16 => "uint16",
            DataType::UInt32 => "uint32",
            DataType::UInt64 => "uint64",
            DataType::UInt128 => "uint128",
            DataType::Float32 => "float32",
            DataType::Float64 => "float64",
            DataType::String => "string",
            DataType::Date => "date",
            DataType::Time => "time",
            DataType::DateTime => "datetime",
            DataType::Instant => "instant",
            DataType::BigInteger => "biginteger",
            DataType::BigDecimal => "bigdecimal",
        }
    }
}

/// Declares num_bigint::BigInt, an arbitrary-precision integer, so that the
/// type mapping below can speak of it; its values are opaque here.
#[verifier::external_type_specification]
#[verifier::external_body]
pub struct ExBigInt(BigInt);

/// Declares bigdecimal::BigDecimal, an arbitrary-precision decimal number;
/// its values are opaque here.
#[verifier::external_type_specification]
#[verifier::external_body]
pub struct ExBigDecimal(BigDecimal);

/// Declares chrono::NaiveDate, a calendar date without a time zone; its
/// values are opaque here.
#[verifier::external_type_specification]
#[verifier::external_body]
pub struct ExNaiveDate(NaiveDate);

/// Declares chrono::NaiveTime, a time of day without a time zone; its
/// values are opaque here.
#[verifier::external_type_specification]
#[verifier::external_body]
pub struct ExNaiveTime(NaiveTime);

/// Declares chrono::NaiveDateTime, a date and time without a time zone; its
/// values are opaque here.
#[verifier::external_type_specification]
#[verifier::external_body]
pub struct ExNaiveDateTime(NaiveDateTime);

/// Compile-time mapping from a Rust type to the [`DataType`] that stands for
/// it.
pub trait DataTypeOf {
    /// The `DataType` corresponding to this Rust type.
    spec fn spec_data_type() -> DataType;

    /// Returns the `DataType` corresponding to this Rust type.
    fn data_type() -> (r: DataType)
        ensures
            r == Self::spec_data_type(),
    ;
}

impl DataTypeOf for bool {
    open spec fn spec_data_type() -> DataType {
        DataType::Bool
    }

    fn data_type() -> DataType {
        DataType::Bool
    }
}

impl DataTypeOf for char {
    open spec fn spec_data_type() -> DataType {
        DataType::Char
    }

    fn data_type() -> DataType {
        DataType::Char
    }
}

impl DataTypeOf for i8 {
    open spec fn spec_data_type() -> DataType {
        DataType::Int8
    }

    fn data_type() -> DataType {
        DataType::Int8
    }
}

impl DataTypeOf for i16 {
    open spec fn spec_data_type() -> DataType {
        DataType::Int16
    }

    fn data_type() -> DataType {
        DataType::Int16
    }
}

impl DataTypeOf for i32 {
    open spec fn spec_data_type() -> DataType {
        DataType::Int32
    }

    fn data_type() -> DataType {
        DataType::Int32
    }
}

impl DataTypeOf for i64 {
    open spec fn spec_data_type() -> DataType {
        DataType::Int64
    }

    fn data_type() -> DataType {
        DataType::Int64
    }
}

impl DataTypeOf for i128 {
    open spec fn spec_data_type() -> DataType {
        DataType::Int128
    }

    fn data_type() -> DataType {
        DataType::Int128
    }
}

impl DataTypeOf for u8 {
    open spec fn spec_data_type() -> DataType {
        DataType::UInt8
    }

    fn data_type() -> DataType {
        DataType::UInt8
    }
}

impl DataTypeOf for u16 {
    open spec fn spec_data_type() -> DataType {
        DataType::UInt16
    }

    fn data_type() -> DataType {
        DataType::UInt16
    }
}

impl DataTypeOf for u32 {
    open spec fn spec_data_type() -> DataType {
        DataType::UInt32
    }

    fn data_type() -> DataType {
        DataType::UInt32
    }
}

impl DataTypeOf for u64 {
    open spec fn spec_data_type() -> DataType {
        DataType::UInt64
    }

    fn data_type() -> DataType {
        DataType::UInt64
    }
}

impl DataTypeOf for u128 {
    open spec fn spec_data_type() -> DataType {
        DataType::UInt128
    }

    fn data_type() -> DataType {
        DataType::UInt128
    }
}

impl DataTypeOf for String {
    open spec fn spec_data_type() -> DataType {
        DataType::String
    }

    fn data_type() -> DataType {
        DataType::String
    }
}

impl DataTypeOf for NaiveDate {
    open spec fn spec_data_type() -> DataType {
        DataType::Date
    }

    fn data_type() -> DataType {
        DataType::Date
    }
}

impl DataTypeOf for NaiveTime {
    open spec fn spec_data_type() -> DataType {
        DataType::Time
    }

    fn data_type() -> DataType {
        DataType::Time
    }
}

impl DataTypeOf for NaiveDateTime {
    open spec fn spec_data_type() -> DataType {
        DataType::DateTime
    }

    fn data_type() -> DataType {
        DataType::DateTime
    }
}

impl DataTypeOf for BigInt {
    open spec fn spec_data_type() -> DataType {
        DataType::BigInteger
    }

    fn data_type() -> DataType {
        DataType::BigInteger
    }
}

impl DataTypeOf for BigDecimal {
    open spec fn spec_data_type() -> DataType {
        DataType::BigDecimal
    }

    fn data_type() -> DataType {
        DataType::BigDecimal
    }
}

} // verus!
