use chrono::{TimeZone, Timelike};
use sqlmate::value::{
    format_date, format_naive_datetime, format_rfc3339, format_time, format_uuid,
    map_mysql_value, map_postgres_value, map_sqlite_value, type_name_is_text, DateParts,
    DateTimeParts, RawValue, TimeParts,
};
use sqlmate::types::JsonScalar;

fn dt(
    year: u32,
    month: u32,
    day: u32,
    hour: u32,
    minute: u32,
    second: u32,
    nanosecond: u32,
    utc: bool,
) -> DateTimeParts {
    DateTimeParts {
        date: DateParts { year, month, day },
        time: TimeParts { hour, minute, second, nanosecond },
        utc,
    }
}

#[test]
fn null_wins_over_every_type() {
    assert_eq!(map_postgres_value("int4", &RawValue::Null), JsonScalar::Null);
    assert_eq!(map_mysql_value("text", "TEXT", &RawValue::Null), JsonScalar::Null);
    assert_eq!(map_sqlite_value("blob", &RawValue::Null), JsonScalar::Null);
}

#[test]
fn text_values_pass_through_unchanged() {
    let v = RawValue::Text("O'Brien \" ` \\ value".to_string());
    assert_eq!(
        map_postgres_value("text", &v),
        JsonScalar::Str("O'Brien \" ` \\ value".to_string()),
    );
    assert_eq!(
        map_mysql_value("varchar", "VARCHAR(50)", &v),
        JsonScalar::Str("O'Brien \" ` \\ value".to_string()),
    );
    assert_eq!(
        map_sqlite_value("text", &v),
        JsonScalar::Str("O'Brien \" ` \\ value".to_string()),
    );
}

#[test]
fn text_family_heuristic() {
    assert!(type_name_is_text("text"));
    assert!(type_name_is_text("varchar"));
    assert!(type_name_is_text("character varying"));
    assert!(type_name_is_text("citext"));
    assert!(type_name_is_text("jsonb"));
    assert!(!type_name_is_text("int4"));
    assert!(!type_name_is_text("bytea"));
}

#[test]
fn postgres_bool_and_int_branches() {
    assert_eq!(map_postgres_value("bool", &RawValue::Bool(true)), JsonScalar::Bool(true));
    assert_eq!(map_postgres_value("bit", &RawValue::Bool(false)), JsonScalar::Bool(false));
    assert_eq!(map_postgres_value("bool", &RawValue::Missing), JsonScalar::Null);
    assert_eq!(map_postgres_value("int8", &RawValue::Int(-5)), JsonScalar::IntNum(-5));
    assert_eq!(map_postgres_value("serial", &RawValue::Int(7)), JsonScalar::IntNum(7));
    assert_eq!(
        map_postgres_value("int4", &RawValue::Missing),
        JsonScalar::Str("NumError(int4)".to_string()),
    );
}

#[test]
fn postgres_float_and_decimal_branches() {
    let f = RawValue::Float { finite: true, repr: "2.25".to_string() };
    assert_eq!(map_postgres_value("float8", &f), JsonScalar::FloatNum("2.25".to_string()));
    let nan = RawValue::Float { finite: false, repr: "NaN".to_string() };
    assert_eq!(map_postgres_value("double", &nan), JsonScalar::Null);
    let d = RawValue::DecimalText("123456789.000000001".to_string());
    assert_eq!(
        map_postgres_value("numeric", &d),
        JsonScalar::Str("123456789.000000001".to_string()),
    );
}

#[test]
fn postgres_uuid_canonical_or_error() {
    let bytes: Vec<u8> = vec![
        0x55, 0x0e, 0x84, 0x00, 0xe2, 0x9b, 0x41, 0xd4, 0xa7, 0x16, 0x44, 0x66, 0x55, 0x44, 0x00,
        0x00,
    ];
    let expect = uuid::Uuid::from_slice(&bytes).unwrap().to_string();
    assert_eq!(map_postgres_value("uuid", &RawValue::UuidBytes(bytes)), JsonScalar::Str(expect));
    assert_eq!(
        map_postgres_value("uuid", &RawValue::Missing),
        JsonScalar::Str("Invalid UUID".to_string()),
    );
}

#[test]
fn postgres_bytea_hex_and_fallbacks() {
    let b = RawValue::Bytes(vec![0x00, 0xab, 0xff]);
    assert_eq!(map_postgres_value("bytea", &b), JsonScalar::Str("0x00abff".to_string()));
    assert_eq!(
        map_postgres_value("bytea", &RawValue::Missing),
        JsonScalar::Str("BinaryErr(bytea)".to_string()),
    );
    assert_eq!(
        map_postgres_value("polygon", &RawValue::Missing),
        JsonScalar::Str("Binary/Complex (polygon)".to_string()),
    );
    assert_eq!(
        map_postgres_value("polygon", &RawValue::Text("(1,2)".to_string())),
        JsonScalar::Str("(1,2)".to_string()),
    );
}

#[test]
fn temporal_formats_match_chrono() {
    let utc = chrono::Utc.with_ymd_and_hms(2021, 3, 4, 5, 6, 7).unwrap();
    assert_eq!(format_rfc3339(dt(2021, 3, 4, 5, 6, 7, 0, true)), utc.to_rfc3339());
    let with_millis = utc.with_nanosecond(123000000).unwrap();
    assert_eq!(
        format_rfc3339(dt(2021, 3, 4, 5, 6, 7, 123000000, true)),
        with_millis.to_rfc3339(),
    );
    let with_nanos = utc.with_nanosecond(123456789).unwrap();
    assert_eq!(
        format_rfc3339(dt(2021, 3, 4, 5, 6, 7, 123456789, true)),
        with_nanos.to_rfc3339(),
    );
    let naive = chrono::NaiveDate::from_ymd_opt(2021, 3, 4)
        .unwrap()
        .and_hms_opt(5, 6, 7)
        .unwrap();
    assert_eq!(
        format_naive_datetime(dt(2021, 3, 4, 5, 6, 7, 0, false)),
        naive.format("%Y-%m-%d %H:%M:%S").to_string(),
    );
    let date = chrono::NaiveDate::from_ymd_opt(987, 12, 31).unwrap();
    assert_eq!(format_date(DateParts { year: 987, month: 12, day: 31 }), date.to_string());
    let time = chrono::NaiveTime::from_hms_nano_opt(23, 59, 6, 123456000).unwrap();
    assert_eq!(
        format_time(TimeParts { hour: 23, minute: 59, second: 6, nanosecond: 123456000 }),
        time.to_string(),
    );
}

#[test]
fn temporal_branch_selects_rendering() {
    let v = RawValue::DateTime(dt(2020, 1, 2, 3, 4, 5, 0, true));
    assert_eq!(
        map_postgres_value("timestamptz", &v),
        JsonScalar::Str("2020-01-02T03:04:05+00:00".to_string()),
    );
    let naive = RawValue::DateTime(dt(2020, 1, 2, 3, 4, 5, 999999999, false));
    assert_eq!(
        map_postgres_value("timestamp", &naive),
        JsonScalar::Str("2020-01-02 03:04:05".to_string()),
    );
    assert_eq!(
        map_postgres_value("date", &RawValue::DateOnly(DateParts { year: 2020, month: 1, day: 2 })),
        JsonScalar::Str("2020-01-02".to_string()),
    );
    assert_eq!(
        map_postgres_value("date", &RawValue::Missing),
        JsonScalar::Str("Invalid Date".to_string()),
    );
}

#[test]
fn mysql_tinyint1_is_boolean() {
    assert_eq!(
        map_mysql_value("tinyint", "TINYINT(1)", &RawValue::Bool(true)),
        JsonScalar::Bool(true),
    );
    assert_eq!(
        map_mysql_value("tinyint", "TINYINT(1)", &RawValue::Int(2)),
        JsonScalar::Bool(true),
    );
    assert_eq!(
        map_mysql_value("tinyint", "TINYINT(1)", &RawValue::Int(0)),
        JsonScalar::Bool(false),
    );
    assert_eq!(map_mysql_value("tinyint", "TINYINT(4)", &RawValue::Int(2)), JsonScalar::IntNum(2));
}

#[test]
fn mysql_unsigned_probe_and_blob_uuid() {
    assert_eq!(
        map_mysql_value("bigint", "BIGINT UNSIGNED", &RawValue::Uint(18446744073709551615)),
        JsonScalar::UintNum(18446744073709551615),
    );
    let sixteen: Vec<u8> = (0u8..16u8).collect();
    let expect = uuid::Uuid::from_slice(&sixteen).unwrap().to_string();
    assert_eq!(
        map_mysql_value("binary", "BINARY(16)", &RawValue::Bytes(sixteen)),
        JsonScalar::Str(expect),
    );
    assert_eq!(
        map_mysql_value("blob", "BLOB", &RawValue::Bytes(vec![0xde, 0xad])),
        JsonScalar::Str("0xdead".to_string()),
    );
}

#[test]
fn sqlite_branches() {
    assert_eq!(map_sqlite_value("boolean", &RawValue::Bool(true)), JsonScalar::Bool(true));
    assert_eq!(map_sqlite_value("integer", &RawValue::Int(9)), JsonScalar::IntNum(9));
    assert_eq!(
        map_sqlite_value("real", &RawValue::Float { finite: true, repr: "0.5".to_string() }),
        JsonScalar::FloatNum("0.5".to_string()),
    );
    assert_eq!(
        map_sqlite_value("blob", &RawValue::Bytes(vec![0x01])),
        JsonScalar::Str("0x01".to_string()),
    );
    assert_eq!(
        map_sqlite_value("blob", &RawValue::Missing),
        JsonScalar::Str("Blob Error".to_string()),
    );
    assert_eq!(
        map_sqlite_value("geometry", &RawValue::Missing),
        JsonScalar::Str("Binary/Complex (geometry)".to_string()),
    );
}

#[test]
fn uuid_rendering_matches_uuid_crate() {
    let bytes: Vec<u8> = vec![
        0xff, 0x00, 0x12, 0x34, 0x56, 0x78, 0x9a, 0xbc, 0xde, 0xf0, 0x11, 0x22, 0x33, 0x44, 0x55,
        0x66,
    ];
    let expect = uuid::Uuid::from_slice(&bytes).unwrap().to_string();
    assert_eq!(format_uuid(&bytes), expect);
}
