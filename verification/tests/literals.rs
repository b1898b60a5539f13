use xiayu::ast::node::{Expression, Select};
use xiayu::ast::calendar::{Date, DateTime, OffsetDateTime, Time, TimeTz};
use xiayu::ast::value::{Decimal, Interval, IpNetwork, Money, Uuid, Value, ValueKind};
use xiayu::databases::can_bind;
use xiayu::databases::value::{MsValue, MyValue, PgValue, SQLiteValue};
use xiayu::dialect::Dialect;
use xiayu::error::ErrorKind;
use xiayu::text::{push_hex, push_hex_byte, push_int, push_nat};
use xiayu::visitors::compile::build;
use xiayu::visitors::literal::literal;

fn raw(d: Dialect, v: Value) -> String {
    build(d, Select::default().value(Expression::raw(v)).into_query()).unwrap().0
}

fn refused(d: Dialect, v: Value) -> xiayu::error::Error {
    build(d, Select::default().value(Expression::raw(v)).into_query()).unwrap_err()
}

fn all_dialects() -> Vec<Dialect> {
    vec![Dialect::Postgres, Dialect::Mysql, Dialect::Sqlite, Dialect::Mssql]
}

fn all_kinds() -> Vec<Value> {
    vec![
        Value::I8(None),
        Value::I16(None),
        Value::I32(None),
        Value::I64(None),
        Value::U8(None),
        Value::U16(None),
        Value::U32(None),
        Value::U64(None),
        Value::Float(None),
        Value::Double(None),
        Value::Text(None),
        Value::Bytes(None),
        Value::Boolean(None),
        Value::Json(None),
        Value::Xml(None),
        Value::Uuid(None),
        Value::PgInterval(None),
        Value::PgMoney(None),
        Value::BigDecimal(None),
        Value::Decimal(None),
        Value::UtcDateTime(None),
        Value::LocalDateTime(None),
        Value::NaiveDateTime(None),
        Value::NaiveDate(None),
        Value::NaiveTime(None),
        Value::PgTimeTz(None),
        Value::IpNetwork(None),
    ]
}

#[test]
fn numbers_are_written_in_decimal() {
    let mut s = String::new();
    push_nat(&mut s, 0);
    push_nat(&mut s, 7);
    push_nat(&mut s, 10);
    push_nat(&mut s, 340282366920938463463374607431768211455);
    assert_eq!("0710340282366920938463463374607431768211455", s);

    let mut s = String::new();
    push_int(&mut s, -1);
    push_int(&mut s, 0);
    push_int(&mut s, i64::MIN);
    push_int(&mut s, i64::MAX);
    assert_eq!("-10-92233720368547758089223372036854775807", s);
}

#[test]
fn bytes_are_written_in_lower_case_hexadecimal() {
    let mut s = String::new();
    push_hex(&mut s, &vec![0x00, 0x0f, 0xa0, 0xff, 0x10]);
    assert_eq!("000fa0ff10", s);
    let mut s = String::from("x");
    push_hex(&mut s, &vec![]);
    assert_eq!("x", s);
    let mut s = String::new();
    push_hex_byte(&mut s, 0xbe);
    push_hex_byte(&mut s, 0x07);
    assert_eq!("be07", s);
}

#[test]
fn integers_of_every_width() {
    assert_eq!("SELECT -128", raw(Dialect::Postgres, Value::I8(Some(-128))));
    assert_eq!("SELECT 32767", raw(Dialect::Mysql, Value::I16(Some(32767))));
    assert_eq!("SELECT -2147483648", raw(Dialect::Sqlite, Value::I32(Some(i32::MIN))));
    assert_eq!("SELECT 9223372036854775807", raw(Dialect::Mssql, Value::I64(Some(i64::MAX))));
    assert_eq!("SELECT 255", raw(Dialect::Mysql, Value::U8(Some(255))));
    assert_eq!("SELECT 65535", raw(Dialect::Sqlite, Value::U16(Some(65535))));
    assert_eq!("SELECT 4294967295", raw(Dialect::Postgres, Value::U32(Some(u32::MAX))));
    assert_eq!("SELECT 18446744073709551615", raw(Dialect::Mysql, Value::U64(Some(u64::MAX))));
}

#[test]
fn floats_that_are_no_numbers_are_quoted() {
    for d in all_dialects() {
        assert_eq!("SELECT 'NaN'", raw(d, Value::double(f64::NAN.to_bits(), "NaN")));
        assert_eq!("SELECT 'Infinity'", raw(d, Value::double(f64::INFINITY.to_bits(), "inf")));
        assert_eq!("SELECT '-Infinity'", raw(d, Value::double(f64::NEG_INFINITY.to_bits(), "-inf")));
        assert_eq!("SELECT 'NaN'", raw(d, Value::float(f32::NAN.to_bits(), "NaN")));
        assert_eq!("SELECT 'Infinity'", raw(d, Value::float(f32::INFINITY.to_bits(), "inf")));
        assert_eq!("SELECT '-Infinity'", raw(d, Value::float(f32::NEG_INFINITY.to_bits(), "-inf")));
        assert_eq!("SELECT 'NaN'", raw(d, Value::double(0xfff8_0000_0000_0001, "NaN")));
        assert_eq!("SELECT -0.5", raw(d, Value::double((-0.5f64).to_bits(), "-0.5")));
        assert_eq!("SELECT 2.5", raw(d, Value::float(2.5f32.to_bits(), &format!("{:?}", 2.5f32))));
        assert_eq!("SELECT 1e300", raw(d, Value::double(1e300f64.to_bits(), &format!("{:?}", 1e300f64))));
    }
}

#[test]
fn bytes_in_the_form_of_each_dialect() {
    let bytes = || Value::bytes(vec![0xde, 0xad, 0x00]);
    assert_eq!("SELECT E'dead00'", raw(Dialect::Postgres, bytes()));
    assert_eq!("SELECT x'dead00'", raw(Dialect::Mysql, bytes()));
    assert_eq!("SELECT x'dead00'", raw(Dialect::Sqlite, bytes()));
    assert_eq!("SELECT 0xdead00", raw(Dialect::Mssql, bytes()));
}

#[test]
fn dates_and_times_in_iso_8601() {
    let date = Date::new(2021, 3, 9).unwrap();
    let time = Time::new(4, 5, 6, 0).unwrap();
    assert_eq!("SELECT '2021-03-09'", raw(Dialect::Postgres, Value::NaiveDate(Some(date))));
    assert_eq!("SELECT '04:05:06'", raw(Dialect::Sqlite, Value::NaiveTime(Some(time))));
    assert_eq!(
        "SELECT '2021-03-09T04:05:06'",
        raw(Dialect::Mysql, Value::NaiveDateTime(Some(DateTime { date, time })))
    );
    assert_eq!(
        "SELECT CONVERT(date, N'2021-03-09')",
        raw(Dialect::Mssql, Value::NaiveDate(Some(date)))
    );
    assert_eq!("SELECT CONVERT(time, N'04:05:06')", raw(Dialect::Mssql, Value::NaiveTime(Some(time))));
    assert_eq!(
        "SELECT CONVERT(datetime2, N'2021-03-09T04:05:06')",
        raw(Dialect::Mssql, Value::NaiveDateTime(Some(DateTime { date, time })))
    );
}

#[test]
fn fractions_of_a_second_take_three_six_or_nine_digits() {
    let at = |nanosecond| Value::NaiveTime(Time::new(1, 2, 3, nanosecond));
    assert_eq!("SELECT '01:02:03.500'", raw(Dialect::Postgres, at(500_000_000)));
    assert_eq!("SELECT '01:02:03.001'", raw(Dialect::Postgres, at(1_000_000)));
    assert_eq!("SELECT '01:02:03.000250'", raw(Dialect::Postgres, at(250_000)));
    assert_eq!("SELECT '01:02:03.000000007'", raw(Dialect::Postgres, at(7)));
    assert_eq!("SELECT '01:02:03.123456789'", raw(Dialect::Postgres, at(123_456_789)));
}

#[test]
fn years_outside_four_digits_and_offsets() {
    let time = Time::new(0, 0, 0, 0).unwrap();
    let on = |year| Value::NaiveDate(Date::new(year, 1, 1));
    assert_eq!("SELECT '0000-01-01'", raw(Dialect::Postgres, on(0)));
    assert_eq!("SELECT '0987-01-01'", raw(Dialect::Postgres, on(987)));
    assert_eq!("SELECT '9999-01-01'", raw(Dialect::Postgres, on(9999)));
    assert_eq!("SELECT '+10000-01-01'", raw(Dialect::Postgres, on(10000)));
    assert_eq!("SELECT '-0044-01-01'", raw(Dialect::Postgres, on(-44)));
    assert_eq!("SELECT '-262143-01-01'", raw(Dialect::Postgres, on(-262_143)));

    let local = |offset_seconds| {
        let date = Date::new(2020, 12, 31).unwrap();
        Value::LocalDateTime(OffsetDateTime::new(DateTime { date, time }, offset_seconds))
    };
    assert_eq!("SELECT '2020-12-31T00:00:00+02:00'", raw(Dialect::Postgres, local(7200)));
    assert_eq!("SELECT '2020-12-31T00:00:00-05:30'", raw(Dialect::Postgres, local(-19800)));
    assert_eq!("SELECT '2020-12-31T00:00:00+00:00'", raw(Dialect::Postgres, local(0)));
    assert_eq!("SELECT '2020-12-31T00:00:00+00:01'", raw(Dialect::Postgres, local(30)));
    assert_eq!("SELECT '2020-12-31T00:00:00-00:00'", raw(Dialect::Postgres, local(-29)));
    assert_eq!("SELECT '2020-12-31T00:00:00+24:00'", raw(Dialect::Postgres, local(86_399)));
    assert_eq!(
        "SELECT CONVERT(datetimeoffset, N'2020-12-31T00:00:00+02:00')",
        raw(Dialect::Mssql, local(7200))
    );
    let utc = Value::UtcDateTime(Some(DateTime { date: Date::new(262_142, 12, 31).unwrap(), time }));
    assert_eq!("SELECT '+262142-12-31T00:00:00+00:00'", raw(Dialect::Postgres, utc));
}

#[test]
fn only_days_of_the_calendar_are_dates() {
    assert!(Date::new(2015, 3, 14).is_some());
    assert!(Date::new(2015, 0, 14).is_none());
    assert!(Date::new(2015, 13, 1).is_none());
    assert!(Date::new(2015, 200, 1).is_none());
    assert!(Date::new(2015, 2, 29).is_none());
    assert!(Date::new(2016, 2, 29).is_some());
    assert!(Date::new(1900, 2, 29).is_none());
    assert!(Date::new(2000, 2, 29).is_some());
    assert!(Date::new(-4, 2, 29).is_some());
    assert!(Date::new(2023, 4, 31).is_none());
    assert!(Date::new(2023, 4, 0).is_none());
    assert!(Date::new(262_142, 12, 31).is_some());
    assert!(Date::new(262_143, 1, 1).is_none());
    assert!(Date::new(-262_143, 1, 1).is_some());
    assert!(Date::new(-262_144, 12, 31).is_none());
    let date = Date::new(2024, 2, 29).unwrap();
    assert_eq!((2024, 2, 29), (date.year(), date.month(), date.day()));
    assert_eq!("2024-02-29", date.to_text());
}

#[test]
fn only_times_of_the_day_are_times() {
    assert!(Time::new(0, 0, 0, 0).is_some());
    assert!(Time::new(23, 59, 59, 999_999_999).is_some());
    assert!(Time::new(23, 59, 59, 1_999_999_999).is_some());
    assert!(Time::new(24, 0, 0, 0).is_none());
    assert!(Time::new(23, 60, 0, 0).is_none());
    assert!(Time::new(23, 59, 60, 0).is_none());
    assert!(Time::new(23, 59, 58, 1_000_000_000).is_none());
    assert!(Time::new(23, 59, 59, 2_000_000_000).is_none());
    let leap = Time::new(23, 59, 59, 1_500_000_000).unwrap();
    assert_eq!("23:59:60.500", leap.to_text());
    assert_eq!((23, 59, 59, 1_500_000_000), (leap.hour(), leap.minute(), leap.second(), leap.nanosecond()));
    assert_eq!("SELECT '23:59:60.500'", raw(Dialect::Postgres, Value::NaiveTime(Some(leap))));
}

#[test]
fn a_moment_has_an_offset_of_less_than_a_day() {
    let time = Time::new(12, 0, 0, 0).unwrap();
    let at = DateTime { date: Date::new(2020, 1, 1).unwrap(), time };
    assert!(OffsetDateTime::new(at, 86_399).is_some());
    assert!(OffsetDateTime::new(at, 86_400).is_none());
    assert!(OffsetDateTime::new(at, -86_400).is_none());
    let last = DateTime { date: Date::new(262_142, 1, 1).unwrap(), time };
    assert!(OffsetDateTime::new(last, 0).is_none());
    let first = DateTime { date: Date::new(-262_143, 12, 31).unwrap(), time };
    assert!(OffsetDateTime::new(first, 0).is_none());
    let moment = OffsetDateTime::new(at, -3600).unwrap();
    assert_eq!(at, moment.date_time());
    assert_eq!(-3600, moment.offset_seconds());
    assert_eq!("2020-01-01T12:00:00-01:00", moment.to_rfc3339());
    assert_eq!("2020-01-01T12:00:00+00:00", at.to_rfc3339());
    assert_eq!("2020-01-01T12:00:00", at.to_text());
    assert!(TimeTz::new(time, 86_400).is_none());
    let zoned = TimeTz::new(time, 3600).unwrap();
    assert_eq!(time, zoned.time());
    assert_eq!(3600, zoned.offset_seconds());
}

#[test]
fn uuids_in_their_hyphenated_form() {
    let uuid = Uuid { bytes: [0, 1, 2, 3, 4, 5, 6, 7, 8, 9, 10, 11, 12, 13, 14, 255] };
    assert_eq!(
        "SELECT '00010203-0405-0607-0809-0a0b0c0d0eff'",
        raw(Dialect::Mysql, Value::uuid(uuid))
    );
}

#[test]
fn null_of_every_kind_with_a_literal() {
    for d in all_dialects() {
        for v in all_kinds() {
            let kind = v.kind();
            let literal_kind = !matches!(
                kind,
                ValueKind::BigDecimal
                    | ValueKind::Decimal
                    | ValueKind::PgInterval
                    | ValueKind::PgMoney
                    | ValueKind::PgTimeTz
                    | ValueKind::IpNetwork
            );
            let unsigned =
                matches!(kind, ValueKind::U8 | ValueKind::U16 | ValueKind::U32 | ValueKind::U64);
            let result = build(d, Select::default().value(Expression::raw(v)).into_query());
            if literal_kind && (!unsigned || can_bind(d, kind)) {
                assert_eq!("SELECT null", result.unwrap().0);
            } else if can_bind(d, kind) {
                assert!(matches!(result.unwrap_err().kind, ErrorKind::UnsupportedOperation(_)));
            } else {
                assert!(matches!(result.unwrap_err().kind, ErrorKind::ConversionError(_)));
            }
        }
    }
}

#[test]
fn kinds_without_a_literal_are_refused() {
    let error = refused(Dialect::Postgres, Value::Decimal(Some(Decimal { mantissa: 15, scale: 1 })));
    assert_eq!(
        ErrorKind::UnsupportedOperation("Decimal cannot be written as a literal on PostgreSQL".to_string()),
        error.kind
    );
    assert_eq!(None, error.original_message());
    assert_eq!(None, error.original_code());

    let error = refused(Dialect::Mssql, Value::U8(Some(1)));
    assert_eq!(
        ErrorKind::ConversionError("u8 are not supported by SQLx with SQL Server.".to_string()),
        error.kind
    );
    assert_eq!(Some("u8 are not supported by SQLx with SQL Server."), error.original_message());

    let error = refused(
        Dialect::Sqlite,
        Value::PgInterval(Some(Interval { months: 1, days: 2, microseconds: 3 })),
    );
    assert_eq!(
        ErrorKind::ConversionError(
            "PgInterval are only supported by SQLx with PostgreSQL, but not SQLite.".to_string()
        ),
        error.kind
    );
    let error = refused(Dialect::Mysql, Value::PgMoney(Some(Money { units: 5 })));
    assert_eq!(
        ErrorKind::ConversionError(
            "PgMoney are only supported by SQLx with PostgreSQL, but not MySQL.".to_string()
        ),
        error.kind
    );
    let error = refused(Dialect::Postgres, Value::PgMoney(Some(Money { units: 5 })));
    assert!(matches!(error.kind, ErrorKind::UnsupportedOperation(_)));
}

#[test]
fn literal_of_a_value_by_itself() {
    assert_eq!("'it''s'".replace("''", "'"), literal(Dialect::Postgres, &Value::text("it's")));
    assert_eq!("1", literal(Dialect::Mssql, &Value::boolean(true)));
    assert_eq!("false", literal(Dialect::Mysql, &Value::boolean(false)));
    assert_eq!("'<a/>'", literal(Dialect::Sqlite, &Value::xml("<a/>")));
}

#[test]
fn what_each_driver_binds() {
    for v in all_kinds() {
        let kind = v.kind();
        let pg = !matches!(kind, ValueKind::U8 | ValueKind::U16 | ValueKind::U64);
        let pg_only = matches!(
            kind,
            ValueKind::PgInterval | ValueKind::PgMoney | ValueKind::PgTimeTz | ValueKind::IpNetwork
        );
        let lite = !pg_only
            && !matches!(kind, ValueKind::U64 | ValueKind::BigDecimal | ValueKind::Decimal);
        let ms = matches!(
            kind,
            ValueKind::I8
                | ValueKind::I16
                | ValueKind::I32
                | ValueKind::I64
                | ValueKind::Float
                | ValueKind::Double
                | ValueKind::Boolean
                | ValueKind::Text
        );
        assert_eq!(pg, PgValue::try_from(v.clone()).is_ok());
        assert_eq!(!pg_only, MyValue::try_from(v.clone()).is_ok());
        assert_eq!(lite, SQLiteValue::try_from(v.clone()).is_ok());
        assert_eq!(ms, MsValue::try_from(v.clone()).is_ok());
        assert_eq!(pg, can_bind(Dialect::Postgres, kind));
        assert_eq!(ms, can_bind(Dialect::Mssql, kind));
    }
}

#[test]
fn a_bound_value_is_the_value() {
    let bound = MsValue::try_from(Value::text("x")).unwrap();
    assert_eq!(Value::text("x"), bound.into_value());
    let bound = PgValue::try_from(Value::IpNetwork(Some(IpNetwork {
        v6: false,
        address: [127, 0, 0, 1, 0, 0, 0, 0, 0, 0, 0, 0, 0, 0, 0, 0],
        prefix: 8,
    })))
    .unwrap();
    assert_eq!(ValueKind::IpNetwork, bound.into_value().kind());
    let bound = MyValue::try_from(Value::U64(Some(9))).unwrap();
    assert_eq!(Value::U64(Some(9)), bound.into_value());
    let bound = SQLiteValue::try_from(Value::bytes(vec![1])).unwrap();
    assert_eq!(Value::bytes(vec![1]), bound.into_value());
}

#[test]
fn what_a_driver_does_not_bind_is_a_conversion_error() {
    let error = MsValue::try_from(Value::bytes(vec![1])).err().unwrap();
    assert_eq!(
        ErrorKind::ConversionError(
            "&[u8]/Vec<u8> are not supported by SQLx with SQL Server.".to_string()
        ),
        error.kind
    );
    assert_eq!(
        Some("&[u8]/Vec<u8> are not supported by SQLx with SQL Server."),
        error.original_message()
    );
    let error = PgValue::try_from(Value::U64(Some(1))).err().unwrap();
    assert_eq!(
        ErrorKind::ConversionError("u64 are not supported by SQLx with PostgreSQL.".to_string()),
        error.kind
    );
    let error = SQLiteValue::try_from(Value::PgTimeTz(TimeTz::new(Time::new(0, 0, 0, 0).unwrap(), 0)))
    .err()
    .unwrap();
    assert_eq!(
        ErrorKind::ConversionError(
            "PgTimeTz are only supported by SQLx with PostgreSQL, but not SQLite.".to_string()
        ),
        error.kind
    );
    let error = MyValue::try_from(Value::IpNetwork(None)).err().unwrap();
    assert_eq!(
        ErrorKind::ConversionError(
            "IpNetwork are only supported by SQLx with PostgreSQL, but not MySQL.".to_string()
        ),
        error.kind
    );
    let error = MsValue::try_from(Value::UtcDateTime(None)).err().unwrap();
    assert_eq!(
        ErrorKind::ConversionError(
            "DataTime<Utc> are not supported by SQLx with SQL Server.".to_string()
        ),
        error.kind
    );
}

#[test]
fn value_accessors() {
    assert_eq!(Some(-5), Value::I8(Some(-5)).as_i64());
    assert_eq!(Some(300), Value::I16(Some(300)).as_i64());
    assert_eq!(Some(70000), Value::I32(Some(70000)).as_i64());
    assert_eq!(Some(i64::MIN), Value::I64(Some(i64::MIN)).as_i64());
    assert_eq!(None, Value::I64(None).as_i64());
    assert_eq!(None, Value::U8(Some(1)).as_i64());
    assert_eq!(None, Value::text("1").as_i64());
    assert!(Value::Text(None).is_null());
    assert!(!Value::text("").is_null());
    assert_eq!(ValueKind::Json, Value::json("{}").kind());
    assert_eq!(ValueKind::Xml, Value::xml("<a/>").kind());
    assert_eq!(Value::int32(4), Value::I32(Some(4)));
    assert_eq!(Value::int64(4), Value::I64(Some(4)));
    assert_eq!(Value::text("a").duplicate(), Value::text("a"));
    assert_eq!(Value::text("a").raw().value, Value::text("a"));
    assert_eq!("Json<T>", ValueKind::Json.name_str());
}
