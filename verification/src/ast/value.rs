//! Scalar values: what a query binds as parameters or writes as literals.

use vstd::prelude::*;
use crate::ast::calendar::{Date, DateTime, OffsetDateTime, Time, TimeTz};

verus! {

/// A span of time in months, days and microseconds.
#[derive(Clone, Copy, Debug, PartialEq, Eq)]
pub struct Interval {
    pub months: i32,
    pub days: i32,
    pub microseconds: i64,
}

/// An amount of money in the smallest unit of its currency.
#[derive(Clone, Copy, Debug, PartialEq, Eq)]
pub struct Money {
    pub units: i64,
}

/// A decimal number: `mantissa` divided by ten to the power `scale`.
#[derive(Clone, Copy, Debug, PartialEq, Eq)]
pub struct Decimal {
    pub mantissa: i128,
    pub scale: u32,
}

/// A universally unique identifier, as its sixteen bytes in network order.
#[derive(Clone, Copy, Debug, PartialEq, Eq)]
pub struct Uuid {
    pub bytes: [u8; 16],
}

/// A network address with its prefix length. An IPv4 address occupies the
/// first four bytes.
#[derive(Clone, Copy, Debug, PartialEq, Eq)]
pub struct IpNetwork {
    pub v6: bool,
    pub address: [u8; 16],
    pub prefix: u8,
}

/// A 32-bit floating-point number: its IEEE 754 bit pattern together with
/// the decimal literal that denotes it.
#[derive(Clone, Debug, PartialEq, Eq)]
pub struct Float {
    pub bits: u32,
    pub literal: String,
}

/// A 64-bit floating-point number: its IEEE 754 bit pattern together with
/// the decimal literal that denotes it.
#[derive(Clone, Debug, PartialEq, Eq)]
pub struct Double {
    pub bits: u64,
    pub literal: String,
}

/// The scalar kind of a value, whether or not it is null.
#[derive(Clone, Copy, Debug, PartialEq, Eq, Structural)]
pub enum ValueKind {
    I8,
    I16,
    I32,
    I64,
    U8,
    U16,
    U32,
    U64,
    Float,
    Double,
    Text,
    Bytes,
    Boolean,
    Json,
    Xml,
    Uuid,
    PgInterval,
    PgMoney,
    BigDecimal,
    Decimal,
    UtcDateTime,
    LocalDateTime,
    NaiveDateTime,
    NaiveDate,
    NaiveTime,
    PgTimeTz,
    IpNetwork,
}

/// A value of one scalar kind. SQL `NULL` is the `None` of the variant
/// that matches the kind.
#[derive(Clone, Debug, PartialEq, Eq)]
pub enum Value {
    /// TINYINT
    I8(Option<i8>),
    /// SMALLINT
    I16(Option<i16>),
    /// INT
    I32(Option<i32>),
    /// BIGINT
    I64(Option<i64>),
    /// TINYINT UNSIGNED
    U8(Option<u8>),
    /// SMALLINT UNSIGNED
    U16(Option<u16>),
    /// INT UNSIGNED
    U32(Option<u32>),
    /// BIGINT UNSIGNED
    U64(Option<u64>),
    /// FLOAT
    Float(Option<Float>),
    /// DOUBLE
    Double(Option<Double>),
    /// VARCHAR, CHAR, TEXT
    Text(Option<String>),
    /// VARBINARY, BINARY, BLOB
    Bytes(Option<Vec<u8>>),
    /// BOOLEAN
    Boolean(Option<bool>),
    /// A JSON document, in its serialized form.
    Json(Option<String>),
    /// An XML document.
    Xml(Option<String>),
    /// UUID
    Uuid(Option<Uuid>),
    /// INTERVAL
    PgInterval(Option<Interval>),
    /// MONEY
    PgMoney(Option<Money>),
    /// NUMERIC of arbitrary precision
    BigDecimal(Option<Decimal>),
    /// NUMERIC
    Decimal(Option<Decimal>),
    /// TIMESTAMPTZ in UTC
    UtcDateTime(Option<DateTime>),
    /// TIMESTAMPTZ at the local offset
    LocalDateTime(Option<OffsetDateTime>),
    /// TIMESTAMP
    NaiveDateTime(Option<DateTime>),
    /// DATE
    NaiveDate(Option<Date>),
    /// TIME
    NaiveTime(Option<Time>),
    /// TIMETZ
    PgTimeTz(Option<TimeTz>),
    /// INET, CIDR
    IpNetwork(Option<IpNetwork>),
}

/// The mathematical model of a [`Value`].
pub ghost enum ValueView {
    I8(Option<i8>),
    I16(Option<i16>),
    I32(Option<i32>),
    I64(Option<i64>),
    U8(Option<u8>),
    U16(Option<u16>),
    U32(Option<u32>),
    U64(Option<u64>),
    Float(Option<(u32, Seq<char>)>),
    Double(Option<(u64, Seq<char>)>),
    Text(Option<Seq<char>>),
    Bytes(Option<Seq<u8>>),
    Boolean(Option<bool>),
    Json(Option<Seq<char>>),
    Xml(Option<Seq<char>>),
    Uuid(Option<Seq<u8>>),
    PgInterval(Option<Interval>),
    PgMoney(Option<Money>),
    BigDecimal(Option<Decimal>),
    Decimal(Option<Decimal>),
    UtcDateTime(Option<DateTime>),
    LocalDateTime(Option<OffsetDateTime>),
    NaiveDateTime(Option<DateTime>),
    NaiveDate(Option<Date>),
    NaiveTime(Option<Time>),
    PgTimeTz(Option<TimeTz>),
    IpNetwork(Option<(bool, Seq<u8>, u8)>),
}

/// The view of an optional string.
pub open spec fn text_view(s: Option<String>) -> Option<Seq<char>> {
    match s {
        Some(s) => Some(s@),
        None => None,
    }
}

impl Value {
    pub open spec fn view(&self) -> ValueView {
        match self {
            Value::I8(v) => ValueView::I8(*v),
            Value::I16(v) => ValueView::I16(*v),
            Value::I32(v) => ValueView::I32(*v),
            Value::I64(v) => ValueView::I64(*v),
            Value::U8(v) => ValueView::U8(*v),
            Value::U16(v) => ValueView::U16(*v),
            Value::U32(v) => ValueView::U32(*v),
            Value::U64(v) => ValueView::U64(*v),
            Value::Float(v) => ValueView::Float(
                match v {
                    Some(f) => Some((f.bits, f.literal@)),
                    None => None,
                },
            ),
            Value::Double(v) => ValueView::Double(
                match v {
                    Some(f) => Some((f.bits, f.literal@)),
                    None => None,
                },
            ),
            Value::Text(v) => ValueView::Text(text_view(*v)),
            Value::Bytes(v) => ValueView::Bytes(
                match v {
                    Some(b) => Some(b@),
                    None => None,
                },
            ),
            Value::Boolean(v) => ValueView::Boolean(*v),
            Value::Json(v) => ValueView::Json(text_view(*v)),
            Value::Xml(v) => ValueView::Xml(text_view(*v)),
            Value::Uuid(v) => ValueView::Uuid(
                match v {
                    Some(u) => Some(u.bytes@),
                    None => None,
                },
            ),
            Value::PgInterval(v) => ValueView::PgInterval(*v),
            Value::PgMoney(v) => ValueView::PgMoney(*v),
            Value::BigDecimal(v) => ValueView::BigDecimal(*v),
            Value::Decimal(v) => ValueView::Decimal(*v),
            Value::UtcDateTime(v) => ValueView::UtcDateTime(*v),
            Value::LocalDateTime(v) => ValueView::LocalDateTime(*v),
            Value::NaiveDateTime(v) => ValueView::NaiveDateTime(*v),
            Value::NaiveDate(v) => ValueView::NaiveDate(*v),
            Value::NaiveTime(v) => ValueView::NaiveTime(*v),
            Value::PgTimeTz(v) => ValueView::PgTimeTz(*v),
            Value::IpNetwork(v) => ValueView::IpNetwork(
                match v {
                    Some(n) => Some((n.v6, n.address@, n.prefix)),
                    None => None,
                },
            ),
        }
    }
}

impl ValueView {
    /// The scalar kind of the value.
    pub open spec fn kind(self) -> ValueKind {
        match self {
            ValueView::I8(_) => ValueKind::I8,
            ValueView::I16(_) => ValueKind::I16,
            ValueView::I32(_) => ValueKind::I32,
            ValueView::I64(_) => ValueKind::I64,
            ValueView::U8(_) => ValueKind::U8,
            ValueView::U16(_) => ValueKind::U16,
            ValueView::U32(_) => ValueKind::U32,
            ValueView::U64(_) => ValueKind::U64,
            ValueView::Float(_) => ValueKind::Float,
            ValueView::Double(_) => ValueKind::Double,
            ValueView::Text(_) => ValueKind::Text,
            ValueView::Bytes(_) => ValueKind::Bytes,
            ValueView::Boolean(_) => ValueKind::Boolean,
            ValueView::Json(_) => ValueKind::Json,
            ValueView::Xml(_) => ValueKind::Xml,
            ValueView::Uuid(_) => ValueKind::Uuid,
            ValueView::PgInterval(_) => ValueKind::PgInterval,
            ValueView::PgMoney(_) => ValueKind::PgMoney,
            ValueView::BigDecimal(_) => ValueKind::BigDecimal,
            ValueView::Decimal(_) => ValueKind::Decimal,
            ValueView::UtcDateTime(_) => ValueKind::UtcDateTime,
            ValueView::LocalDateTime(_) => ValueKind::LocalDateTime,
            ValueView::NaiveDateTime(_) => ValueKind::NaiveDateTime,
            ValueView::NaiveDate(_) => ValueKind::NaiveDate,
            ValueView::NaiveTime(_) => ValueKind::NaiveTime,
            ValueView::PgTimeTz(_) => ValueKind::PgTimeTz,
            ValueView::IpNetwork(_) => ValueKind::IpNetwork,
        }
    }

    /// True for SQL `NULL`.
    pub open spec fn is_null(self) -> bool {
        match self {
            ValueView::I8(v) => v is None,
            ValueView::I16(v) => v is None,
            ValueView::I32(v) => v is None,
            ValueView::I64(v) => v is None,
            ValueView::U8(v) => v is None,
            ValueView::U16(v) => v is None,
            ValueView::U32(v) => v is None,
            ValueView::U64(v) => v is None,
            ValueView::Float(v) => v is None,
            ValueView::Double(v) => v is None,
            ValueView::Text(v) => v is None,
            ValueView::Bytes(v) => v is None,
            ValueView::Boolean(v) => v is None,
            ValueView::Json(v) => v is None,
            ValueView::Xml(v) => v is None,
            ValueView::Uuid(v) => v is None,
            ValueView::PgInterval(v) => v is None,
            ValueView::PgMoney(v) => v is None,
            ValueView::BigDecimal(v) => v is None,
            ValueView::Decimal(v) => v is None,
            ValueView::UtcDateTime(v) => v is None,
            ValueView::LocalDateTime(v) => v is None,
            ValueView::NaiveDateTime(v) => v is None,
            ValueView::NaiveDate(v) => v is None,
            ValueView::NaiveTime(v) => v is None,
            ValueView::PgTimeTz(v) => v is None,
            ValueView::IpNetwork(v) => v is None,
        }
    }

    /// The value as a 64-bit integer, where it is a signed integer.
    pub open spec fn as_i64(self) -> Option<i64> {
        match self {
            ValueView::I8(Some(i)) => Some(i as i64),
            ValueView::I16(Some(i)) => Some(i as i64),
            ValueView::I32(Some(i)) => Some(i as i64),
            ValueView::I64(i) => i,
            _ => None,
        }
    }
}

/// The views of a sequence of values, in order.
pub open spec fn value_views(values: Seq<Value>) -> Seq<ValueView> {
    Seq::new(values.len(), |i: int| values[i]@)
}

/// A value written into the query text as a literal, without a parameter.
///
/// The caller accepts the risk of SQL injection.
#[derive(Clone, Debug, PartialEq, Eq)]
pub struct Raw {
    pub value: Value,
}

impl Value {
    /// A text value.
    pub fn text(value: &str) -> (v: Value)
        ensures
            v@ == ValueView::Text(Some(value@)),
    {
        Value::Text(Some(String::from_str(value)))
    }

    /// A bytes value.
    pub fn bytes(value: Vec<u8>) -> (v: Value)
        ensures
            v@ == ValueView::Bytes(Some(value@)),
    {
        Value::Bytes(Some(value))
    }

    /// A boolean value.
    pub fn boolean(value: bool) -> (v: Value)
        ensures
            v@ == ValueView::Boolean(Some(value)),
    {
        Value::Boolean(Some(value))
    }

    /// A UUID value.
    pub fn uuid(value: Uuid) -> (v: Value)
        ensures
            v@ == ValueView::Uuid(Some(value.bytes@)),
    {
        Value::Uuid(Some(value))
    }

    /// A 32-bit integer value.
    pub fn int32(value: i32) -> (v: Value)
        ensures
            v@ == ValueView::I32(Some(value)),
    {
        Value::I32(Some(value))
    }

    /// A 64-bit integer value.
    pub fn int64(value: i64) -> (v: Value)
        ensures
            v@ == ValueView::I64(Some(value)),
    {
        Value::I64(Some(value))
    }

    /// A JSON value from its serialized form.
    pub fn json(document: &str) -> (v: Value)
        ensures
            v@ == ValueView::Json(Some(document@)),
    {
        Value::Json(Some(String::from_str(document)))
    }

    /// An XML value.
    pub fn xml(document: &str) -> (v: Value)
        ensures
            v@ == ValueView::Xml(Some(document@)),
    {
        Value::Xml(Some(String::from_str(document)))
    }

    /// The scalar kind of the value.
    pub fn kind(&self) -> (k: ValueKind)
        ensures
            k == self@.kind(),
    {
        match self {
            Value::I8(_) => ValueKind::I8,
            Value::I16(_) => ValueKind::I16,
            Value::I32(_) => ValueKind::I32,
            Value::I64(_) => ValueKind::I64,
            Value::U8(_) => ValueKind::U8,
            Value::U16(_) => ValueKind::U16,
            Value::U32(_) => ValueKind::U32,
            Value::U64(_) => ValueKind::U64,
            Value::Float(_) => ValueKind::Float,
            Value::Double(_) => ValueKind::Double,
            Value::Text(_) => ValueKind::Text,
            Value::Bytes(_) => ValueKind::Bytes,
            Value::Boolean(_) => ValueKind::Boolean,
            Value::Json(_) => ValueKind::Json,
            Value::Xml(_) => ValueKind::Xml,
            Value::Uuid(_) => ValueKind::Uuid,
            Value::PgInterval(_) => ValueKind::PgInterval,
            Value::PgMoney(_) => ValueKind::PgMoney,
            Value::BigDecimal(_) => ValueKind::BigDecimal,
            Value::Decimal(_) => ValueKind::Decimal,
            Value::UtcDateTime(_) => ValueKind::UtcDateTime,
            Value::LocalDateTime(_) => ValueKind::LocalDateTime,
            Value::NaiveDateTime(_) => ValueKind::NaiveDateTime,
            Value::NaiveDate(_) => ValueKind::NaiveDate,
            Value::NaiveTime(_) => ValueKind::NaiveTime,
            Value::PgTimeTz(_) => ValueKind::PgTimeTz,
            Value::IpNetwork(_) => ValueKind::IpNetwork,
        }
    }

    /// True for SQL `NULL`.
    pub fn is_null(&self) -> (b: bool)
        ensures
            b == self@.is_null(),
    {
        match self {
            Value::I8(v) => v.is_none(),
            Value::I16(v) => v.is_none(),
            Value::I32(v) => v.is_none(),
            Value::I64(v) => v.is_none(),
            Value::U8(v) => v.is_none(),
            Value::U16(v) => v.is_none(),
            Value::U32(v) => v.is_none(),
            Value::U64(v) => v.is_none(),
            Value::Float(v) => v.is_none(),
            Value::Double(v) => v.is_none(),
            Value::Text(v) => v.is_none(),
            Value::Bytes(v) => v.is_none(),
            Value::Boolean(v) => v.is_none(),
            Value::Json(v) => v.is_none(),
            Value::Xml(v) => v.is_none(),
            Value::Uuid(v) => v.is_none(),
            Value::PgInterval(v) => v.is_none(),
            Value::PgMoney(v) => v.is_none(),
            Value::BigDecimal(v) => v.is_none(),
            Value::Decimal(v) => v.is_none(),
            Value::UtcDateTime(v) => v.is_none(),
            Value::LocalDateTime(v) => v.is_none(),
            Value::NaiveDateTime(v) => v.is_none(),
            Value::NaiveDate(v) => v.is_none(),
            Value::NaiveTime(v) => v.is_none(),
            Value::PgTimeTz(v) => v.is_none(),
            Value::IpNetwork(v) => v.is_none(),
        }
    }

    /// The value as a 64-bit integer if it is a signed integer, otherwise
    /// `None`.
    pub fn as_i64(&self) -> (r: Option<i64>)
        ensures
            r == self@.as_i64(),
    {
        match self {
            Value::I8(Some(i)) => Some(*i as i64),
            Value::I16(Some(i)) => Some(*i as i64),
            Value::I32(Some(i)) => Some(*i as i64),
            Value::I64(i) => *i,
            _ => None,
        }
    }

    /// The same value, to be written as a literal.
    pub fn raw(self) -> (r: Raw)
        ensures
            r.value == self,
    {
        Raw { value: self }
    }

    /// A copy of the value.
    pub fn duplicate(&self) -> (v: Value)
        ensures
            v@ == self@,
    {
        match self {
            Value::I8(v) => Value::I8(*v),
            Value::I16(v) => Value::I16(*v),
            Value::I32(v) => Value::I32(*v),
            Value::I64(v) => Value::I64(*v),
            Value::U8(v) => Value::U8(*v),
            Value::U16(v) => Value::U16(*v),
            Value::U32(v) => Value::U32(*v),
            Value::U64(v) => Value::U64(*v),
            Value::Float(v) => Value::Float(
                match v {
                    Some(f) => Some(Float { bits: f.bits, literal: f.literal.clone() }),
                    None => None,
                },
            ),
            Value::Double(v) => Value::Double(
                match v {
                    Some(f) => Some(Double { bits: f.bits, literal: f.literal.clone() }),
                    None => None,
                },
            ),
            Value::Text(v) => Value::Text(copy_text(v)),
            Value::Bytes(v) => Value::Bytes(
                match v {
                    Some(b) => Some(b.clone()),
                    None => None,
                },
            ),
            Value::Boolean(v) => Value::Boolean(*v),
            Value::Json(v) => Value::Json(copy_text(v)),
            Value::Xml(v) => Value::Xml(copy_text(v)),
            Value::Uuid(v) => Value::Uuid(*v),
            Value::PgInterval(v) => Value::PgInterval(*v),
            Value::PgMoney(v) => Value::PgMoney(*v),
            Value::BigDecimal(v) => Value::BigDecimal(*v),
            Value::Decimal(v) => Value::Decimal(*v),
            Value::UtcDateTime(v) => Value::UtcDateTime(*v),
            Value::LocalDateTime(v) => Value::LocalDateTime(*v),
            Value::NaiveDateTime(v) => Value::NaiveDateTime(*v),
            Value::NaiveDate(v) => Value::NaiveDate(*v),
            Value::NaiveTime(v) => Value::NaiveTime(*v),
            Value::PgTimeTz(v) => Value::PgTimeTz(*v),
            Value::IpNetwork(v) => Value::IpNetwork(*v),
        }
    }
}

/// A copy of an optional string.
pub fn copy_text(s: &Option<String>) -> (r: Option<String>)
    ensures
        text_view(r) == text_view(*s),
{
    match s {
        Some(s) => Some(s.clone()),
        None => None,
    }
}

} // verus!

verus! {

impl ValueKind {
    /// The name of the kind in messages.
    pub open spec fn name(self) -> Seq<char> {
        match self {
            ValueKind::I8 => "i8"@,
            ValueKind::I16 => "i16"@,
            ValueKind::I32 => "i32"@,
            ValueKind::I64 => "i64"@,
            ValueKind::U8 => "u8"@,
            ValueKind::U16 => "u16"@,
            ValueKind::U32 => "u32"@,
            ValueKind::U64 => "u64"@,
            ValueKind::Float => "f32"@,
            ValueKind::Double => "f64"@,
            ValueKind::Text => "String"@,
            ValueKind::Bytes => "&[u8]/Vec<u8>"@,
            ValueKind::Boolean => "bool"@,
            ValueKind::Json => "Json<T>"@,
            ValueKind::Xml => "Xml"@,
            ValueKind::Uuid => "Uuid"@,
            ValueKind::PgInterval => "PgInterval"@,
            ValueKind::PgMoney => "PgMoney"@,
            ValueKind::BigDecimal => "BigDecimal"@,
            ValueKind::Decimal => "Decimal"@,
            ValueKind::UtcDateTime => "DataTime<Utc>"@,
            ValueKind::LocalDateTime => "DataTime<Local>"@,
            ValueKind::NaiveDateTime => "NaiveDateTime"@,
            ValueKind::NaiveDate => "NaiveDate"@,
            ValueKind::NaiveTime => "NaiveTime"@,
            ValueKind::PgTimeTz => "PgTimeTz"@,
            ValueKind::IpNetwork => "IpNetwork"@,
        }
    }

    /// True for the kinds that only PostgreSQL knows.
    pub open spec fn postgres_only(self) -> bool {
        self == ValueKind::PgInterval || self == ValueKind::PgMoney || self == ValueKind::PgTimeTz
            || self == ValueKind::IpNetwork
    }

    /// True for the unsigned integer kinds.
    pub open spec fn unsigned(self) -> bool {
        self == ValueKind::U8 || self == ValueKind::U16 || self == ValueKind::U32 || self
            == ValueKind::U64
    }

    /// True for the kinds that have a literal form.
    pub open spec fn has_literal(self) -> bool {
        !self.postgres_only() && self != ValueKind::BigDecimal && self != ValueKind::Decimal
    }

    pub fn name_str(self) -> (s: &'static str)
        ensures
            s@ == self.name(),
    {
        match self {
            ValueKind::I8 => "i8",
            ValueKind::I16 => "i16",
            ValueKind::I32 => "i32",
            ValueKind::I64 => "i64",
            ValueKind::U8 => "u8",
            ValueKind::U16 => "u16",
            ValueKind::U32 => "u32",
            ValueKind::U64 => "u64",
            ValueKind::Float => "f32",
            ValueKind::Double => "f64",
            ValueKind::Text => "String",
            ValueKind::Bytes => "&[u8]/Vec<u8>",
            ValueKind::Boolean => "bool",
            ValueKind::Json => "Json<T>",
            ValueKind::Xml => "Xml",
            ValueKind::Uuid => "Uuid",
            ValueKind::PgInterval => "PgInterval",
            ValueKind::PgMoney => "PgMoney",
            ValueKind::BigDecimal => "BigDecimal",
            ValueKind::Decimal => "Decimal",
            ValueKind::UtcDateTime => "DataTime<Utc>",
            ValueKind::LocalDateTime => "DataTime<Local>",
            ValueKind::NaiveDateTime => "NaiveDateTime",
            ValueKind::NaiveDate => "NaiveDate",
            ValueKind::NaiveTime => "NaiveTime",
            ValueKind::PgTimeTz => "PgTimeTz",
            ValueKind::IpNetwork => "IpNetwork",
        }
    }

    pub fn is_postgres_only(self) -> (b: bool)
        ensures
            b == self.postgres_only(),
    {
        matches!(
            self,
            ValueKind::PgInterval | ValueKind::PgMoney | ValueKind::PgTimeTz | ValueKind::IpNetwork
        )
    }

    pub fn is_unsigned(self) -> (b: bool)
        ensures
            b == self.unsigned(),
    {
        matches!(self, ValueKind::U8 | ValueKind::U16 | ValueKind::U32 | ValueKind::U64)
    }

    pub fn is_literal(self) -> (b: bool)
        ensures
            b == self.has_literal(),
    {
        !self.is_postgres_only() && !matches!(self, ValueKind::BigDecimal | ValueKind::Decimal)
    }
}

} // verus!
