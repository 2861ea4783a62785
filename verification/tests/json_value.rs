use row_decode::databases::mysql::MySql;
use row_decode::databases::postgres::Postgres;
use row_decode::deserializers::{RowPlan, Shape};
use row_decode::from_row;
use row_decode::row::{Column, RawValue, Row};
use row_decode::scalar::{decode_raw, Decoded, ScalarKind, Visit};

fn detail(kind: &str, max_size: Option<u32>) -> String {
    format!("MySqlTypeInfo {{ type: {}, flags: ColumnFlags(0x0), max_size: {:?} }}", kind, max_size)
}

fn value_row(tag: &str, kind: &str, max_size: Option<u32>) -> Row {
    Row::new(vec![Column::new("value", RawValue::new(tag, &detail(kind, max_size), false))])
}

fn read(row: &Row, decoded: Decoded) -> Visit {
    match from_row::<MySql>(row, Shape::Any).unwrap() {
        RowPlan::Decode { column: 0, kind } => decode_raw(kind, Ok(decoded)).unwrap(),
        other => panic!("unexpected plan {:?}", other),
    }
}

/// The document that a target of any JSON value makes of what it is
/// handed.
fn as_json(visit: Visit) -> serde_json::Value {
    match visit {
        Visit::F64(bits) => serde_json::Value::from(f64::from_bits(bits)),
        Visit::Text(text) => serde_json::Value::from(text),
        Visit::Json(doc) => doc,
        other => panic!("unexpected visit {:?}", other),
    }
}

// SELECT -4.2 AS value
#[test]
fn test_json_value_float() {
    let row = value_row("DECIMAL", "NewDecimal", Some(4));
    let visit = read(&row, Decoded::Decimal(Some((-4.2f64).to_bits())));
    assert_eq!(as_json(visit), serde_json::Value::from(-4.2));
}

// SELECT 'hello world!' AS value
#[test]
fn test_json_value_string() {
    let row = value_row("VARCHAR", "VarString", Some(48));
    let visit = read(&row, Decoded::Text("hello world!".to_owned()));
    assert_eq!(as_json(visit), serde_json::Value::from("hello world!"));
}

#[test]
fn json_column_is_handed_on_as_a_document() {
    let doc: serde_json::Value = serde_json::from_str(r#"{"a": [1, 2, {"b": null}]}"#).unwrap();
    let row = value_row("JSON", "Json", None);
    assert_eq!(
        from_row::<MySql>(&row, Shape::Any),
        Ok(RowPlan::Decode { column: 0, kind: ScalarKind::Json })
    );
    assert_eq!(read(&row, Decoded::Json(doc.clone())), Visit::Json(doc.clone()));
    let jsonb = Row::new(vec![Column::new("value", RawValue::new("JSONB", "", false))]);
    assert_eq!(
        from_row::<Postgres>(&jsonb, Shape::Any),
        Ok(RowPlan::Decode { column: 0, kind: ScalarKind::Json })
    );
}
