use row_decode::databases::mysql::MySql;
use row_decode::deserializers::{RowPlan, Shape};
use row_decode::error::DecodeError;
use row_decode::from_row;
use row_decode::row::{Column, RawValue, Row};
use row_decode::scalar::{decode_raw, Decoded, ScalarKind, Visit};

fn detail(kind: &str, max_size: Option<u32>) -> String {
    format!("MySqlTypeInfo {{ type: {}, flags: ColumnFlags(0x0), max_size: {:?} }}", kind, max_size)
}

fn greeting(tag: &str, null: bool) -> Row {
    let value = RawValue::new(tag, &detail("VarString", Some(32)), null);
    Row::new(vec![Column::new("greeting", value)])
}

/// What the consumer of a string gets for the row, if the backend decodes
/// the column to `text`.
fn read_string(row: &Row, text: &str) -> Result<Visit, DecodeError> {
    match from_row::<MySql>(row, Shape::Any)? {
        RowPlan::Null => Ok(Visit::Null),
        RowPlan::Decode { column, kind } => {
            assert_eq!(column, 0);
            assert_eq!(kind, ScalarKind::Text);
            decode_raw(kind, Ok(Decoded::Text(text.to_owned())))
        }
        other => panic!("unexpected plan {:?}", other),
    }
}

fn read_optional_string(row: &Row, text: &str) -> Option<String> {
    match from_row::<MySql>(row, Shape::Optional).unwrap() {
        RowPlan::Null => None,
        RowPlan::Present => match read_string(row, text).unwrap() {
            Visit::Text(text) => Some(text),
            other => panic!("unexpected visit {:?}", other),
        },
        other => panic!("unexpected plan {:?}", other),
    }
}

// SELECT 'a string' AS greeting
#[test]
fn unannotated_as_string() {
    let row = greeting("VARCHAR", false);
    assert_eq!(read_string(&row, "a string"), Ok(Visit::Text("a string".to_owned())));
}

// SELECT CAST('a string' AS CHAR) AS greeting
#[test]
fn char_as_string() {
    let row = greeting("CHAR", false);
    assert_eq!(read_string(&row, "a string"), Ok(Visit::Text("a string".to_owned())));
}

// SELECT 'a string' AS greeting UNION ALL SELECT NULL
#[test]
fn vec_unannotated_as_string_opt() {
    let rows = vec![greeting("VARCHAR", false), greeting("VARCHAR", true)];
    let read: Vec<Option<String>> =
        rows.iter().map(|row| read_optional_string(row, "a string")).collect();
    assert_eq!(read, vec![Some("a string".to_owned()), None]);
}

// SELECT CAST('a string' AS CHAR) AS greeting UNION ALL SELECT NULL
#[test]
fn vec_char_as_string_opt() {
    let rows = vec![greeting("CHAR", false), greeting("CHAR", true)];
    let read: Vec<Option<String>> =
        rows.iter().map(|row| read_optional_string(row, "a string")).collect();
    assert_eq!(read, vec![Some("a string".to_owned()), None]);
}

// SELECT CAST('a string' AS CHAR) AS greeting UNION ALL SELECT NULL, first row
#[test]
fn char_as_string_opt() {
    let row = greeting("CHAR", false);
    assert_eq!(read_optional_string(&row, "a string"), Some("a string".to_owned()));
}

#[test]
fn null_string_without_option_is_none() {
    let row = greeting("VARCHAR", true);
    assert_eq!(read_string(&row, "unused"), Ok(Visit::Null));
}

#[test]
fn every_text_type_is_text() {
    for tag in ["CHAR", "VARCHAR", "ENUM", "SET", "TINYTEXT", "TEXT", "MEDIUMTEXT", "LONGTEXT"] {
        let row = greeting(tag, false);
        assert_eq!(
            from_row::<MySql>(&row, Shape::Any),
            Ok(RowPlan::Decode { column: 0, kind: ScalarKind::Text }),
            "{}",
            tag
        );
    }
}

#[test]
fn every_binary_type_is_bytes() {
    for tag in ["BINARY", "BIT", "TINYBLOB", "BLOB", "MEDIUMBLOB", "LONGBLOB", "VARBINARY"] {
        let row = greeting(tag, false);
        assert_eq!(
            from_row::<MySql>(&row, Shape::Any),
            Ok(RowPlan::Decode { column: 0, kind: ScalarKind::Bytes }),
            "{}",
            tag
        );
    }
    assert_eq!(
        decode_raw(ScalarKind::Bytes, Ok(Decoded::Bytes(vec![0, 159, 255]))),
        Ok(Visit::Bytes(vec![0, 159, 255]))
    );
}

#[test]
fn unknown_type_falls_back_to_text() {
    let row = greeting("GEOMETRY", false);
    assert_eq!(
        from_row::<MySql>(&row, Shape::Any),
        Ok(RowPlan::Decode { column: 0, kind: ScalarKind::Text })
    );
    assert_eq!(read_string(&row, "POINT(1 2)"), Ok(Visit::Text("POINT(1 2)".to_owned())));
    let lower = greeting("varchar", false);
    assert_eq!(
        from_row::<MySql>(&lower, Shape::Any),
        Ok(RowPlan::Decode { column: 0, kind: ScalarKind::Text })
    );
}

#[test]
fn failed_decode_names_the_representation() {
    let error = decode_raw(ScalarKind::Text, Err("invalid utf-8".to_owned())).unwrap_err();
    assert_eq!(
        error,
        DecodeError::Decode {
            target: "alloc::string::String".to_owned(),
            cause: "invalid utf-8".to_owned(),
        }
    );
    assert_eq!(error.message(), "Failed to decode alloc::string::String value: invalid utf-8");
}
