//! Literals: values written into the query text instead of being bound.

use vstd::prelude::*;
use crate::ast::value::{Uuid, Value, ValueKind, ValueView};
use crate::databases::{binds, can_bind};
use crate::dialect::Dialect;
use crate::error::Fault;
use crate::text::{
    hex_byte_text,
    hex_text,
    int_text,
    nat_text,
    push_hex,
    push_hex_byte,
    push_int,
    push_nat,
};
use crate::visitors::model::{fail, text, Rendered};

verus! {

broadcast use vstd::seq::group_seq_axioms;

/// The first `n` bytes of a UUID in hexadecimal, with a hyphen before the
/// bytes at positions 4, 6, 8 and 10.
pub open spec fn uuid_prefix_text(bytes: Seq<u8>, n: nat) -> Seq<char>
    decreases n,
{
    if n == 0 || n > bytes.len() {
        Seq::empty()
    } else {
        uuid_prefix_text(bytes, (n - 1) as nat) + (if n == 5 || n == 7 || n == 9 || n == 11 {
            "-"@
        } else {
            ""@
        }) + hex_byte_text(bytes[n - 1])
    }
}

/// A UUID in its hyphenated form.
pub open spec fn uuid_text(bytes: Seq<u8>) -> Seq<char> {
    uuid_prefix_text(bytes, bytes.len())
}

/// True for a bit pattern that is not a number.
pub open spec fn float_is_nan(bits: u32) -> bool {
    (bits & 0x7fff_ffff) > 0x7f80_0000
}

/// True for a bit pattern that is not a number.
pub open spec fn double_is_nan(bits: u64) -> bool {
    (bits & 0x7fff_ffff_ffff_ffff) > 0x7ff0_0000_0000_0000
}

/// The literal of a 32-bit floating-point number.
pub open spec fn float_text(bits: u32, literal: Seq<char>) -> Seq<char> {
    if float_is_nan(bits) {
        "'NaN'"@
    } else if bits == 0x7f80_0000 {
        "'Infinity'"@
    } else if bits == 0xff80_0000 {
        "'-Infinity'"@
    } else {
        literal
    }
}

/// The literal of a 64-bit floating-point number.
pub open spec fn double_text(bits: u64, literal: Seq<char>) -> Seq<char> {
    if double_is_nan(bits) {
        "'NaN'"@
    } else if bits == 0x7ff0_0000_0000_0000 {
        "'Infinity'"@
    } else if bits == 0xfff0_0000_0000_0000 {
        "'-Infinity'"@
    } else {
        literal
    }
}

/// A text between single quotes.
pub open spec fn quoted_text(s: Seq<char>) -> Seq<char> {
    "'"@ + s + "'"@
}

/// A text between single quotes; on SQL Server inside a conversion to the
/// named type.
pub open spec fn typed_text(d: Dialect, sql_type: Seq<char>, s: Seq<char>) -> Seq<char> {
    if d == Dialect::Mssql {
        "CONVERT("@ + sql_type + ", N'"@ + s + "')"@
    } else {
        quoted_text(s)
    }
}

/// True where a value of the kind can be written as a literal.
pub open spec fn writes_literal(d: Dialect, kind: ValueKind) -> bool {
    kind.has_literal() && (kind.unsigned() ==> binds(d, kind))
}

/// The literal of a value that can be written as one.
pub open spec fn literal_text(d: Dialect, v: ValueView) -> Seq<char> {
    match v {
        ValueView::I8(Some(i)) => int_text(i as int),
        ValueView::I16(Some(i)) => int_text(i as int),
        ValueView::I32(Some(i)) => int_text(i as int),
        ValueView::I64(Some(i)) => int_text(i as int),
        ValueView::U8(Some(i)) => nat_text(i as nat),
        ValueView::U16(Some(i)) => nat_text(i as nat),
        ValueView::U32(Some(i)) => nat_text(i as nat),
        ValueView::U64(Some(i)) => nat_text(i as nat),
        ValueView::Float(Some((bits, literal))) => float_text(bits, literal),
        ValueView::Double(Some((bits, literal))) => double_text(bits, literal),
        ValueView::Text(Some(s)) => quoted_text(s),
        ValueView::Xml(Some(s)) => quoted_text(s),
        ValueView::Json(Some(s)) => quoted_text(s),
        ValueView::Bytes(Some(b)) => match d {
            Dialect::Postgres => "E'"@ + hex_text(b) + "'"@,
            Dialect::Mysql => "x'"@ + hex_text(b) + "'"@,
            Dialect::Sqlite => "x'"@ + hex_text(b) + "'"@,
            Dialect::Mssql => "0x"@ + hex_text(b),
        },
        ValueView::Boolean(Some(b)) => if d == Dialect::Mssql {
            if b {
                "1"@
            } else {
                "0"@
            }
        } else {
            if b {
                "true"@
            } else {
                "false"@
            }
        },
        ValueView::Uuid(Some(bytes)) => typed_text(d, "uniqueidentifier"@, uuid_text(bytes)),
        ValueView::UtcDateTime(Some(dt)) => typed_text(d, "datetimeoffset"@, dt.utc_text()),
        ValueView::LocalDateTime(Some(dt)) => typed_text(d, "datetimeoffset"@, dt.text()),
        ValueView::NaiveDateTime(Some(dt)) => typed_text(d, "datetime2"@, dt.text()),
        ValueView::NaiveDate(Some(date)) => typed_text(d, "date"@, date.text()),
        ValueView::NaiveTime(Some(t)) => typed_text(d, "time"@, t.text()),
        _ => "null"@,
    }
}

/// A value written as a literal: one piece of text, or the reason why
/// the kind has no literal on the dialect.
pub open spec fn render_raw(d: Dialect, v: ValueView) -> Rendered {
    if writes_literal(d, v.kind()) {
        text(literal_text(d, v))
    } else if binds(d, v.kind()) {
        fail(Fault::NoLiteral(v.kind()))
    } else {
        fail(Fault::Unbindable(v.kind()))
    }
}

/// Appends a UUID in its hyphenated form.
pub fn push_uuid(out: &mut String, u: &Uuid)
    ensures
        final(out)@ == old(out)@ + uuid_text(u.bytes@),
{
    let mut n: usize = 0;
    while n < 16
        invariant
            n <= 16,
            u.bytes@.len() == 16,
            out@ == old(out)@ + uuid_prefix_text(u.bytes@, n as nat),
        decreases 16 - n,
    {
        let ghost before = out@;
        if n == 4 || n == 6 || n == 8 || n == 10 {
            out.append("-");
        } else {
            out.append("");
        }
        push_hex_byte(out, u.bytes[n]);
        n += 1;
        assert(out@ =~= old(out)@ + uuid_prefix_text(u.bytes@, n as nat));
    }
}

/// Appends a text between single quotes.
pub fn push_quoted(out: &mut String, s: &str)
    ensures
        final(out)@ == old(out)@ + quoted_text(s@),
{
    out.append("'");
    out.append(s);
    out.append("'");
    assert(out@ =~= old(out)@ + quoted_text(s@));
}

/// Tells whether a value of the kind can be written as a literal.
pub fn can_write_literal(d: Dialect, kind: ValueKind) -> (b: bool)
    ensures
        b == writes_literal(d, kind),
{
    kind.is_literal() && (!kind.is_unsigned() || can_bind(d, kind))
}

/// What opens a literal that names its type.
fn push_typed_open(out: &mut String, d: Dialect, sql_type: &str)
    ensures
        final(out)@ == old(out)@ + (if d == Dialect::Mssql {
            "CONVERT("@ + sql_type@ + ", N'"@
        } else {
            "'"@
        }),
{
    match d {
        Dialect::Mssql => {
            out.append("CONVERT(");
            out.append(sql_type);
            out.append(", N'");
            assert(out@ =~= old(out)@ + ("CONVERT("@ + sql_type@ + ", N'"@));
        },
        _ => {
            out.append("'");
        },
    }
}

/// What closes a literal that names its type.
fn push_typed_close(out: &mut String, d: Dialect)
    ensures
        final(out)@ == old(out)@ + (if d == Dialect::Mssql {
            "')"@
        } else {
            "'"@
        }),
{
    match d {
        Dialect::Mssql => {
            out.append("')");
        },
        _ => {
            out.append("'");
        },
    }
}

/// The literal of a value on a dialect that can write one for its kind.
pub fn literal(d: Dialect, v: &Value) -> (out: String)
    requires
        writes_literal(d, v@.kind()),
    ensures
        out@ == literal_text(d, v@),
{
    let mut out = String::new();
    match v {
        Value::I8(Some(i)) => push_int(&mut out, *i as i64),
        Value::I16(Some(i)) => push_int(&mut out, *i as i64),
        Value::I32(Some(i)) => push_int(&mut out, *i as i64),
        Value::I64(Some(i)) => push_int(&mut out, *i),
        Value::U8(Some(i)) => push_nat(&mut out, *i as u128),
        Value::U16(Some(i)) => push_nat(&mut out, *i as u128),
        Value::U32(Some(i)) => push_nat(&mut out, *i as u128),
        Value::U64(Some(i)) => push_nat(&mut out, *i as u128),
        Value::Float(Some(f)) => {
            if (f.bits & 0x7fff_ffff) > 0x7f80_0000 {
                out.append("'NaN'");
            } else if f.bits == 0x7f80_0000 {
                out.append("'Infinity'");
            } else if f.bits == 0xff80_0000 {
                out.append("'-Infinity'");
            } else {
                out.append(f.literal.as_str());
            }
        },
        Value::Double(Some(f)) => {
            if (f.bits & 0x7fff_ffff_ffff_ffff) > 0x7ff0_0000_0000_0000 {
                out.append("'NaN'");
            } else if f.bits == 0x7ff0_0000_0000_0000 {
                out.append("'Infinity'");
            } else if f.bits == 0xfff0_0000_0000_0000 {
                out.append("'-Infinity'");
            } else {
                out.append(f.literal.as_str());
            }
        },
        Value::Text(Some(s)) => push_quoted(&mut out, s.as_str()),
        Value::Xml(Some(s)) => push_quoted(&mut out, s.as_str()),
        Value::Json(Some(s)) => push_quoted(&mut out, s.as_str()),
        Value::Bytes(Some(b)) => {
            match d {
                Dialect::Postgres => {
                    out.append("E'");
                    push_hex(&mut out, b);
                    out.append("'");
                },
                Dialect::Mysql => {
                    out.append("x'");
                    push_hex(&mut out, b);
                    out.append("'");
                },
                Dialect::Sqlite => {
                    out.append("x'");
                    push_hex(&mut out, b);
                    out.append("'");
                },
                Dialect::Mssql => {
                    out.append("0x");
                    push_hex(&mut out, b);
                },
            }
        },
        Value::Boolean(Some(b)) => {
            match d {
                Dialect::Mssql => {
                    if *b {
                        out.append("1");
                    } else {
                        out.append("0");
                    }
                },
                _ => {
                    if *b {
                        out.append("true");
                    } else {
                        out.append("false");
                    }
                },
            }
        },
        Value::Uuid(Some(u)) => {
            push_typed_open(&mut out, d, "uniqueidentifier");
            push_uuid(&mut out, u);
            push_typed_close(&mut out, d);
        },
        Value::UtcDateTime(Some(dt)) => {
            push_typed_open(&mut out, d, "datetimeoffset");
            let s = dt.to_rfc3339();
            out.append(s.as_str());
            push_typed_close(&mut out, d);
        },
        Value::LocalDateTime(Some(dt)) => {
            push_typed_open(&mut out, d, "datetimeoffset");
            let s = dt.to_rfc3339();
            out.append(s.as_str());
            push_typed_close(&mut out, d);
        },
        Value::NaiveDateTime(Some(dt)) => {
            push_typed_open(&mut out, d, "datetime2");
            let s = dt.to_text();
            out.append(s.as_str());
            push_typed_close(&mut out, d);
        },
        Value::NaiveDate(Some(date)) => {
            push_typed_open(&mut out, d, "date");
            let s = date.to_text();
            out.append(s.as_str());
            push_typed_close(&mut out, d);
        },
        Value::NaiveTime(Some(t)) => {
            push_typed_open(&mut out, d, "time");
            let s = t.to_text();
            out.append(s.as_str());
            push_typed_close(&mut out, d);
        },
        _ => {
            out.append("null");
        },
    }
    assert(out@ =~= literal_text(d, v@));
    out
}

} // verus!
