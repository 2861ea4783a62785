use row_decode::databases::mysql::MySql;
use row_decode::databases::postgres::Postgres;
use row_decode::databases::ValuePlan;
use row_decode::deserializers::{RowDeserializer, RowPlan, Shape, ValueDeserializer, ValueType};
use row_decode::from_row;
use row_decode::map_access::RowMapAccess;
use row_decode::row::{Column, RawValue, Row};
use row_decode::scalar::{decode_raw, Decoded, ScalarKind, Visit};

fn text_row(name: &str, tag: &str, null: bool) -> Row {
    Row::new(vec![Column::new(name, RawValue::new(tag, "", null))])
}

// SELECT 'red'
#[test]
fn test_enum_by_itself() {
    let row = text_row("red", "VARCHAR", false);
    assert_eq!(
        from_row::<MySql>(&row, Shape::Tag),
        Ok(RowPlan::Decode { column: 0, kind: ScalarKind::Enum })
    );
    assert_eq!(
        decode_raw(ScalarKind::Enum, Ok(Decoded::Text("red".to_owned()))),
        Ok(Visit::Enum("red".to_owned()))
    );
}

// SELECT 'magenta' AS `color`
#[test]
fn test_enum_inside_struct() {
    let row = text_row("color", "VARCHAR", false);
    assert_eq!(from_row::<MySql>(&row, Shape::Record), Ok(RowPlan::Entries { start: 0, end: 1 }));
    let mut access = RowMapAccess::new(RowDeserializer::<MySql>::new(&row));
    assert_eq!(access.next_key(), Some("color"));
    let value = access.next_value().unwrap();
    assert_eq!(value.deserialize_enum(), ValuePlan::Decode(ScalarKind::Enum));
    assert_eq!(
        decode_raw(ScalarKind::Enum, Ok(Decoded::Text("magenta".to_owned()))),
        Ok(Visit::Enum("magenta".to_owned()))
    );
}

#[test]
fn enum_hint_wins_over_the_type() {
    for tag in ["INT", "ENUM", "BLOB", "JSON", "NULL", "anything"] {
        let value = RawValue::new(tag, "max_size: Some(1)", false);
        let mut mysql = ValueDeserializer::<MySql>::new(&value);
        mysql.value_type = ValueType::Enum;
        assert_eq!(mysql.deserialize_any(), ValuePlan::Decode(ScalarKind::Enum), "{}", tag);
        let postgres = ValueDeserializer::<Postgres>::new(&value);
        assert_eq!(postgres.deserialize_enum(), ValuePlan::Decode(ScalarKind::Enum), "{}", tag);
    }
}

#[test]
fn null_enum_is_none() {
    let row = text_row("color", "VARCHAR", true);
    assert_eq!(from_row::<MySql>(&row, Shape::Tag), Ok(RowPlan::Null));
    assert_eq!(from_row::<Postgres>(&row, Shape::Tag), Ok(RowPlan::Null));
    let value = RawValue::new("VARCHAR", "", true);
    assert_eq!(ValueDeserializer::<MySql>::new(&value).deserialize_enum(), ValuePlan::Null);
}

#[test]
fn enum_tag_that_is_no_text_is_refused() {
    assert!(decode_raw(ScalarKind::Enum, Ok(Decoded::I32(1))).is_err());
}
