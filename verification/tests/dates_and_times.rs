use row_decode::databases::mysql::MySql;
use row_decode::databases::postgres::Postgres;
use row_decode::deserializers::{RowPlan, Shape};
use row_decode::error::DecodeError;
use row_decode::from_row;
use row_decode::row::{Column, RawValue, Row};
use row_decode::scalar::{decode_raw, Decoded, ScalarKind, Visit};
use row_decode::temporal::{Date, DateTime, Interval, Time, Timestamp};

fn detail(kind: &str) -> String {
    format!("MySqlTypeInfo {{ type: {}, flags: ColumnFlags(0x80), max_size: Some(26) }}", kind)
}

fn value_row(tag: &str, kind: &str) -> Row {
    Row::new(vec![Column::new("value", RawValue::new(tag, &detail(kind), false))])
}

/// The text that the consumer gets for the row, if the backend decodes
/// the column to `decoded`.
fn read_text(row: &Row, expected: ScalarKind, decoded: Decoded) -> String {
    match from_row::<MySql>(row, Shape::Any).unwrap() {
        RowPlan::Decode { column: 0, kind } => {
            assert_eq!(kind, expected);
            match decode_raw(kind, Ok(decoded)).unwrap() {
                Visit::Text(text) => text,
                other => panic!("unexpected visit {:?}", other),
            }
        }
        other => panic!("unexpected plan {:?}", other),
    }
}

const TEST_DATE: Date = Date { year: 2017, month: 11, day: 16 };

// SELECT CAST('2017-11-16' AS DATE)
#[test]
fn test_chrono_date() {
    let row = value_row("DATE", "Date");
    let text = read_text(&row, ScalarKind::Date, Decoded::Date(TEST_DATE));
    assert_eq!(text, "2017-11-16");
    let date: chrono::NaiveDate = text.parse().unwrap();
    assert_eq!(date, chrono::NaiveDate::from_ymd_opt(2017, 11, 16).unwrap());
}

// SELECT CAST('14:45:12' AS TIME)
#[test]
fn test_chrono_time() {
    let row = value_row("TIME", "Time");
    let wire = Time { secs: 14 * 3600 + 45 * 60 + 12, nanos: 0 };
    let text = read_text(&row, ScalarKind::Time, Decoded::Time(wire));
    assert_eq!(text, "14:45:12");
    let time: chrono::NaiveTime = text.parse().unwrap();
    assert_eq!(time, chrono::NaiveTime::from_hms_opt(14, 45, 12).unwrap());
}

// SELECT CAST('2017-11-16 14:45:12.012345' AS DATETIME(6))
#[test]
fn test_chrono_datetime() {
    let row = value_row("DATETIME", "Datetime");
    let wire = DateTime {
        date: TEST_DATE,
        time: Time { secs: 14 * 3600 + 45 * 60 + 12, nanos: 12_345_000 },
    };
    let text = read_text(&row, ScalarKind::DateTime, Decoded::DateTime(wire));
    assert_eq!(text, "2017-11-16T14:45:12.012345");
    let read: chrono::NaiveDateTime = text.parse().unwrap();
    let expected = chrono::NaiveDate::from_ymd_opt(2017, 11, 16)
        .unwrap()
        .and_time(chrono::NaiveTime::from_hms_micro_opt(14, 45, 12, 12_345).unwrap());
    assert_eq!(read, expected);
}

#[test]
fn mysql_timestamp_is_a_datetime_with_six_digits() {
    let row = value_row("TIMESTAMP", "Timestamp");
    let wire = DateTime { date: Date { year: 1999, month: 1, day: 2 }, time: Time { secs: 3, nanos: 0 } };
    let text = read_text(&row, ScalarKind::DateTime, Decoded::DateTime(wire));
    assert_eq!(text, "1999-01-02T00:00:03.000000");
}

#[test]
fn time_with_fraction() {
    let wire = Time { secs: 1, nanos: 500_000_000 };
    assert_eq!(
        decode_raw(ScalarKind::Time, Ok(Decoded::Time(wire))),
        Ok(Visit::Text("00:00:01.500".to_owned()))
    );
}

#[test]
fn leap_second_only_at_the_end_of_a_minute() {
    let leap = Time { secs: 86_399, nanos: 1_500_000_000 };
    assert_eq!(
        decode_raw(ScalarKind::Time, Ok(Decoded::Time(leap))),
        Ok(Visit::Text("23:59:60.500".to_owned()))
    );
    let early = Time { secs: 10, nanos: 1_000_000_000 };
    assert!(decode_raw(ScalarKind::Time, Ok(Decoded::Time(early))).is_err());
    let long = Time { secs: 59, nanos: 2_000_000_000 };
    assert!(decode_raw(ScalarKind::Time, Ok(Decoded::Time(long))).is_err());
}

#[test]
fn every_interval_has_a_text() {
    for days in [i32::MIN, -1, 0, 1, i32::MAX] {
        for microseconds in [i64::MIN, -1, 0, 1, 999_999, i64::MAX] {
            let span = Interval { days, microseconds };
            assert!(span.to_text().is_some(), "{:?}", span);
            assert!(decode_raw(ScalarKind::Interval, Ok(Decoded::Interval(span))).is_ok());
        }
    }
}

#[test]
fn date_out_of_the_calendar_is_an_error() {
    let wire = Date { year: 2023, month: 2, day: 30 };
    assert_eq!(
        decode_raw(ScalarKind::Date, Ok(Decoded::Date(wire))),
        Err(DecodeError::Decode {
            target: "chrono::naive::date::NaiveDate".to_owned(),
            cause: "value out of range".to_owned(),
        })
    );
    let late = Time { secs: 86_400, nanos: 0 };
    assert!(decode_raw(ScalarKind::Time, Ok(Decoded::Time(late))).is_err());
    let both = DateTime { date: wire, time: Time { secs: 0, nanos: 0 } };
    assert!(decode_raw(ScalarKind::DateTime, Ok(Decoded::DateTime(both))).is_err());
}

#[test]
fn years_beyond_four_digits_carry_a_sign() {
    let wire = Date { year: 10000, month: 12, day: 31 };
    assert_eq!(
        decode_raw(ScalarKind::Date, Ok(Decoded::Date(wire))),
        Ok(Visit::Text("+10000-12-31".to_owned()))
    );
    let early = Date { year: -1, month: 1, day: 1 };
    assert_eq!(
        decode_raw(ScalarKind::Date, Ok(Decoded::Date(early))),
        Ok(Visit::Text("-0001-01-01".to_owned()))
    );
}

#[test]
fn postgres_timestamp_is_rfc_3339() {
    for tag in ["TIMESTAMP", "TIMESTAMPTZ"] {
        let row = Row::new(vec![Column::new("at", RawValue::new(tag, "", false))]);
        assert_eq!(
            from_row::<Postgres>(&row, Shape::Any),
            Ok(RowPlan::Decode { column: 0, kind: ScalarKind::Timestamp })
        );
    }
    let utc = DateTime {
        date: TEST_DATE,
        time: Time { secs: 14 * 3600 + 45 * 60 + 12, nanos: 12_345_000 },
    };
    assert_eq!(
        decode_raw(ScalarKind::Timestamp, Ok(Decoded::Timestamp(Timestamp { utc, offset: 0 }))),
        Ok(Visit::Text("2017-11-16T14:45:12.012345+00:00".to_owned()))
    );
    assert_eq!(
        decode_raw(
            ScalarKind::Timestamp,
            Ok(Decoded::Timestamp(Timestamp { utc, offset: 2 * 3600 }))
        ),
        Ok(Visit::Text("2017-11-16T16:45:12.012345+02:00".to_owned()))
    );
    assert!(decode_raw(
        ScalarKind::Timestamp,
        Ok(Decoded::Timestamp(Timestamp { utc, offset: 86_400 }))
    )
    .is_err());
}

#[test]
fn postgres_date_and_time_types() {
    for (tag, kind) in [
        ("DATE", ScalarKind::Date),
        ("TIME", ScalarKind::Time),
        ("TIMETZ", ScalarKind::Time),
        ("INTERVAL", ScalarKind::Interval),
        ("UUID", ScalarKind::Uuid),
        ("BYTEA", ScalarKind::Bytes),
        ("CHAR", ScalarKind::Text),
        ("TEXT", ScalarKind::Text),
        ("BOOL", ScalarKind::Bool),
        ("JSON", ScalarKind::Json),
        ("JSONB", ScalarKind::Json),
        ("VARCHAR", ScalarKind::Text),
        ("citext", ScalarKind::Text),
    ] {
        let row = Row::new(vec![Column::new("value", RawValue::new(tag, "", false))]);
        assert_eq!(
            from_row::<Postgres>(&row, Shape::Any),
            Ok(RowPlan::Decode { column: 0, kind }),
            "{}",
            tag
        );
    }
}

#[test]
fn interval_is_an_iso_8601_duration() {
    let cases = [
        (Interval { days: 0, microseconds: 0 }, "P0D"),
        (Interval { days: 1, microseconds: 0 }, "PT86400S"),
        (Interval { days: 1, microseconds: 1_500_000 }, "PT86401.5S"),
        (Interval { days: 0, microseconds: 1 }, "PT0.000001S"),
        (Interval { days: 0, microseconds: -1_500_000 }, "-PT1.5S"),
        (Interval { days: -1, microseconds: 0 }, "-PT86400S"),
        (Interval { days: -1, microseconds: 86_400_000_000 }, "P0D"),
    ];
    for (span, text) in cases {
        assert_eq!(
            decode_raw(ScalarKind::Interval, Ok(Decoded::Interval(span))),
            Ok(Visit::Text(text.to_owned())),
            "{:?}",
            span
        );
        assert_eq!(span.to_text(), Some(text.to_owned()));
    }
}

#[test]
fn interval_in_seconds_and_nanoseconds() {
    assert_eq!(Interval { days: 0, microseconds: 0 }.seconds_and_nanos(), (0, 0));
    assert_eq!(Interval { days: 2, microseconds: 3_000_007 }.seconds_and_nanos(), (172_803, 7_000));
    assert_eq!(Interval { days: 0, microseconds: -1 }.seconds_and_nanos(), (-1, 999_999_000));
    assert_eq!(Interval { days: 0, microseconds: -1_000_000 }.seconds_and_nanos(), (-1, 0));
    assert_eq!(Interval { days: 0, microseconds: -1_000_001 }.seconds_and_nanos(), (-2, 999_999_000));
    assert_eq!(
        Interval { days: i32::MAX, microseconds: i64::MAX }.seconds_and_nanos(),
        (i64::from(i32::MAX) * 86_400 + 9_223_372_036_854, 775_807_000)
    );
    assert_eq!(
        Interval { days: i32::MIN, microseconds: i64::MIN }.seconds_and_nanos(),
        (i64::from(i32::MIN) * 86_400 - 9_223_372_036_855, 224_192_000)
    );
    assert!(Interval { days: i32::MIN, microseconds: i64::MIN }.to_text().is_some());
}

#[test]
fn uuid_is_hyphenated_lower_case() {
    assert_eq!(
        decode_raw(
            ScalarKind::Uuid,
            Ok(Decoded::Uuid(0xa1a2a3a4b1b2c1c2d1d2d3d4d5d6d7d8u128))
        ),
        Ok(Visit::Text("a1a2a3a4-b1b2-c1c2-d1d2-d3d4d5d6d7d8".to_owned()))
    );
    assert_eq!(
        decode_raw(ScalarKind::Uuid, Ok(Decoded::Uuid(0))),
        Ok(Visit::Text("00000000-0000-0000-0000-000000000000".to_owned()))
    );
}
