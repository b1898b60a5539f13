//! What the driver of each dialect can bind.

pub mod execution;
pub mod value;

use vstd::prelude::*;
use crate::ast::value::ValueKind;
use crate::dialect::Dialect;

verus! {

/// True where the driver of the dialect binds values of the kind.
pub open spec fn binds(d: Dialect, kind: ValueKind) -> bool {
    match d {
        Dialect::Postgres => kind != ValueKind::U8 && kind != ValueKind::U16 && kind
            != ValueKind::U64,
        Dialect::Mysql => !kind.postgres_only(),
        Dialect::Sqlite => !kind.postgres_only() && kind != ValueKind::U64 && kind
            != ValueKind::BigDecimal && kind != ValueKind::Decimal,
        Dialect::Mssql => kind == ValueKind::I8 || kind == ValueKind::I16 || kind == ValueKind::I32
            || kind == ValueKind::I64 || kind == ValueKind::Float || kind == ValueKind::Double
            || kind == ValueKind::Boolean || kind == ValueKind::Text,
    }
}

/// Tells whether the driver of the dialect binds values of the kind.
pub fn can_bind(d: Dialect, kind: ValueKind) -> (b: bool)
    ensures
        b == binds(d, kind),
{
    match d {
        Dialect::Postgres => !matches!(kind, ValueKind::U8 | ValueKind::U16 | ValueKind::U64),
        Dialect::Mysql => !kind.is_postgres_only(),
        Dialect::Sqlite => !kind.is_postgres_only() && !matches!(
            kind,
            ValueKind::U64 | ValueKind::BigDecimal | ValueKind::Decimal
        ),
        Dialect::Mssql => matches!(
            kind,
            ValueKind::I8 | ValueKind::I16 | ValueKind::I32 | ValueKind::I64 | ValueKind::Float
                | ValueKind::Double | ValueKind::Boolean | ValueKind::Text
        ),
    }
}

} // verus!
