use row_decode::databases::mysql::MySql;
use row_decode::databases::postgres::Postgres;
use row_decode::databases::Database;
use row_decode::deserializers::{RowPlan, Shape};
use row_decode::error::DecodeError;
use row_decode::from_row;
use row_decode::json::{flatten_record, has_all_keys, has_key, record_plan, Flattening};
use row_decode::row::{Column, RawValue, Row};

fn parse(text: &str) -> serde_json::Value {
    serde_json::from_str(text).unwrap()
}

fn json_row(tag: &str) -> Row {
    Row::new(vec![Column::new("json_record", RawValue::new(tag, "", false))])
}

fn strings(items: &[&str]) -> Vec<String> {
    items.iter().map(|item| (*item).to_owned()).collect()
}

/// The document that is read as the record, for a row whose JSON column
/// the backend decodes to `wire`.
fn read_record(fields: &[&str], wire: &str) -> Result<serde_json::Value, DecodeError> {
    let row = json_row("JSON");
    assert_eq!(from_row::<MySql>(&row, Shape::Record), Ok(RowPlan::Json { column: 0 }));
    let doc = MySql::deserialize_json(Ok(parse(wire)))?;
    flatten_record(fields, doc)
}

// SELECT JSON_OBJECT('one', 1, 'two', 2, 'three', 3) AS json_record
#[test]
fn single_json_field_into_a_record() {
    let wire = r#"{"one": 1, "two": 2, "three": 3}"#;
    let doc = read_record(&["one", "two", "three"], wire).unwrap();
    assert_eq!(doc, parse(wire));
    assert_eq!(doc["one"], serde_json::Value::from(1));
    assert_eq!(doc["two"], serde_json::Value::from(2));
    assert_eq!(doc["three"], serde_json::Value::from(3));
}

// The same row, read as a record whose one field is `json_record`.
#[test]
fn single_json_field_into_a_record_field() {
    let wire = r#"{"one": 1, "two": 2, "three": 3}"#;
    let doc = read_record(&["json_record"], wire).unwrap();
    assert_eq!(doc, parse(r#"{"json_record": {"one": 1, "two": 2, "three": 3}}"#));
    let inner = &doc["json_record"];
    assert_eq!(inner["one"], serde_json::Value::from(1));
    assert_eq!(inner["three"], serde_json::Value::from(3));
}

#[test]
fn object_with_exactly_the_fields_is_read_directly() {
    let wire = r#"{"a": 1, "b": "x", "c": null}"#;
    assert_eq!(read_record(&["a", "b", "c"], wire), Ok(parse(wire)));
    assert_eq!(read_record(&["c", "a"], wire), Ok(parse(wire)));
}

#[test]
fn object_without_the_only_field_is_wrapped() {
    let wire = r#"{"a": 1, "b": 2, "c": 3}"#;
    assert_eq!(
        read_record(&["x"], wire),
        Ok(parse(r#"{"x": {"a": 1, "b": 2, "c": 3}}"#))
    );
}

#[test]
fn object_with_the_only_field_is_read_directly() {
    let wire = r#"{"x": 1, "y": 2}"#;
    assert_eq!(read_record(&["x"], wire), Ok(parse(wire)));
}

#[test]
fn object_without_one_of_several_fields_is_refused() {
    let wire = r#"{"a": 1, "b": 2, "c": 3}"#;
    let error = read_record(&["a", "d"], wire).unwrap_err();
    match &error {
        DecodeError::MissingKeys { expected, found } => {
            assert_eq!(expected, &strings(&["a", "d"]));
            let mut found = found.clone();
            found.sort();
            assert_eq!(found, strings(&["a", "b", "c"]));
        }
        other => panic!("unexpected error {:?}", other),
    }
    let message = error.message();
    assert!(message.starts_with(
        "JSON object missing expected keys: expected [\"a\", \"d\"], found keys ["
    ));
    assert!(message.contains("\"b\""));
    assert!(message.ends_with("]"));
}

#[test]
fn record_without_fields_takes_any_object() {
    let wire = r#"{"a": 1}"#;
    assert_eq!(read_record(&[], wire), Ok(parse(wire)));
    assert_eq!(record_plan(&[], Some(vec![])), Ok(Flattening::Direct));
}

#[test]
fn document_that_is_no_object_is_read_as_it_is() {
    for wire in ["[1, 2, 3]", "7", "\"text\"", "null", "true"] {
        assert_eq!(read_record(&["a", "b"], wire), Ok(parse(wire)), "{}", wire);
        assert_eq!(read_record(&["a"], wire), Ok(parse(wire)), "{}", wire);
    }
}

#[test]
fn rule_on_keys() {
    let keys = strings(&["a", "b", "c"]);
    assert_eq!(record_plan(&["a", "b", "c"], Some(keys.clone())), Ok(Flattening::Direct));
    assert_eq!(record_plan(&["x"], Some(keys.clone())), Ok(Flattening::Wrap));
    assert_eq!(record_plan(&["b"], Some(keys.clone())), Ok(Flattening::Direct));
    assert_eq!(
        record_plan(&["a", "d"], Some(keys.clone())),
        Err(DecodeError::MissingKeys { expected: strings(&["a", "d"]), found: keys.clone() })
    );
    assert_eq!(record_plan(&["a", "d"], None), Ok(Flattening::Direct));
    assert_eq!(record_plan(&["x"], None), Ok(Flattening::Direct));
    assert_eq!(record_plan(&["x"], Some(vec![])), Ok(Flattening::Wrap));
    assert_eq!(
        record_plan(&["x", "y"], Some(vec![])),
        Err(DecodeError::MissingKeys { expected: strings(&["x", "y"]), found: vec![] })
    );
}

#[test]
fn key_search() {
    let keys = strings(&["one", "two"]);
    assert!(has_key(&keys, "one"));
    assert!(has_key(&keys, "two"));
    assert!(!has_key(&keys, "on"));
    assert!(!has_key(&keys, "three"));
    assert!(!has_key(&vec![], "one"));
    assert!(has_all_keys(&keys, &["two", "one"]));
    assert!(has_all_keys(&keys, &[]));
    assert!(!has_all_keys(&keys, &["one", "three"]));
}

#[test]
fn column_that_is_no_json_makes_the_row_a_map() {
    let row = Row::new(vec![
        Column::new("one", RawValue::new("INT", "", false)),
        Column::new("two", RawValue::new("VARCHAR", "", false)),
    ]);
    assert_eq!(
        from_row::<MySql>(&row, Shape::Record),
        Ok(RowPlan::Entries { start: 0, end: 2 })
    );
    assert_eq!(
        from_row::<Postgres>(&row, Shape::Record),
        Ok(RowPlan::Entries { start: 0, end: 2 })
    );
}

#[test]
fn both_postgres_json_types_are_json() {
    assert!(Postgres::is_json("JSON"));
    assert!(Postgres::is_json("JSONB"));
    assert!(!Postgres::is_json("TEXT"));
    assert!(!Postgres::is_json("json"));
    assert!(MySql::is_json("JSON"));
    assert!(!MySql::is_json("JSONB"));
    assert_eq!(
        from_row::<Postgres>(&json_row("JSONB"), Shape::Record),
        Ok(RowPlan::Json { column: 0 })
    );
    assert_eq!(
        from_row::<MySql>(&json_row("JSONB"), Shape::Record),
        Ok(RowPlan::Entries { start: 0, end: 1 })
    );
}

#[test]
fn record_of_an_empty_row_is_a_bounds_error() {
    let row = Row::new(vec![]);
    assert_eq!(
        from_row::<MySql>(&row, Shape::Record),
        Err(DecodeError::ColumnIndex { index: 0, len: 0 })
    );
}

#[test]
fn failed_json_decode_names_the_backend() {
    let mysql = MySql::deserialize_json(Err("expected value".to_owned())).unwrap_err();
    assert_eq!(
        mysql.message(),
        "Failed to decode serde_json::value::Value value: expected value"
    );
    let postgres = Postgres::deserialize_json(Err("expected value".to_owned())).unwrap_err();
    assert_eq!(
        postgres,
        DecodeError::JsonColumn {
            target: "serde_json::value::Value".to_owned(),
            cause: "expected value".to_owned(),
        }
    );
    assert_eq!(
        postgres.message(),
        "Failed to decode JSON/JSONB: Failed to decode serde_json::value::Value value: expected value"
    );
}
