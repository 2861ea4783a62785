use std::collections::HashMap;

use row_decode::databases::mysql::MySql;
use row_decode::databases::ValuePlan;
use row_decode::deserializers::{RowDeserializer, RowPlan, Shape};
use row_decode::error::DecodeError;
use row_decode::from_row;
use row_decode::map_access::RowMapAccess;
use row_decode::row::{Column, RawValue, Row};
use row_decode::scalar::{decode_raw, Decoded, ScalarKind, Visit};

fn detail(kind: &str, max_size: Option<u32>) -> String {
    format!("MySqlTypeInfo {{ type: {}, flags: ColumnFlags(0x0), max_size: {:?} }}", kind, max_size)
}

fn column(name: &str, tag: &str, kind: &str, max_size: Option<u32>) -> Column {
    Column::new(name, RawValue::new(tag, &detail(kind, max_size), false))
}

/// Walks the row as a map; `wire` gives what the backend decodes the
/// column of a name to.
fn read_map(row: &Row, wire: &dyn Fn(&str, ScalarKind) -> Decoded) -> Vec<(String, Visit)> {
    let end = row.len();
    assert_eq!(from_row::<MySql>(row, Shape::Mapping), Ok(RowPlan::Entries { start: 0, end }));
    let mut access = RowMapAccess::new(RowDeserializer::<MySql>::new(row));
    let mut entries = Vec::new();
    while let Some(key) = access.next_key() {
        let key = key.to_owned();
        let value = access.next_value().unwrap();
        let visit = match value.deserialize_any() {
            ValuePlan::Null => Visit::Null,
            ValuePlan::Decode(kind) => decode_raw(kind, Ok(wire(&key, kind))).unwrap(),
        };
        entries.push((key, visit));
    }
    entries
}

// SELECT '1' AS one, '2' AS two, '3' AS three
#[test]
fn text_columns_into_hashmap() {
    let row = Row::new(vec![
        column("one", "VARCHAR", "VarString", Some(4)),
        column("two", "VARCHAR", "VarString", Some(4)),
        column("three", "VARCHAR", "VarString", Some(4)),
    ]);
    let wire = |name: &str, kind: ScalarKind| {
        assert_eq!(kind, ScalarKind::Text);
        Decoded::Text(match name {
            "one" => "1".to_owned(),
            "two" => "2".to_owned(),
            _ => "3".to_owned(),
        })
    };
    let entries = read_map(&row, &wire);
    assert_eq!(
        entries,
        vec![
            ("one".to_owned(), Visit::Text("1".to_owned())),
            ("two".to_owned(), Visit::Text("2".to_owned())),
            ("three".to_owned(), Visit::Text("3".to_owned())),
        ]
    );
    let map: HashMap<String, Visit> = entries.into_iter().collect();
    assert_eq!(map.len(), 3);
    assert_eq!(map["two"], Visit::Text("2".to_owned()));
}

// SELECT 1 AS one, 2 AS two, 3 AS three, with integer columns
#[test]
fn int4_columns_into_hashmap() {
    let row = Row::new(vec![
        column("one", "INT", "Long", Some(11)),
        column("two", "INT", "Long", Some(11)),
        column("three", "INT", "Long", Some(11)),
    ]);
    let wire = |name: &str, kind: ScalarKind| {
        assert_eq!(kind, ScalarKind::I32);
        Decoded::I32(match name {
            "one" => 1,
            "two" => 2,
            _ => 3,
        })
    };
    let map: HashMap<String, Visit> = read_map(&row, &wire).into_iter().collect();
    let expected: HashMap<String, Visit> = vec![
        ("one".to_owned(), Visit::I32(1)),
        ("two".to_owned(), Visit::I32(2)),
        ("three".to_owned(), Visit::I32(3)),
    ]
    .into_iter()
    .collect();
    assert_eq!(map, expected);
}

#[test]
fn repeated_names_come_in_column_order() {
    let row = Row::new(vec![
        column("n", "INT", "Long", Some(11)),
        column("n", "INT", "Long", Some(11)),
    ]);
    let next = std::cell::Cell::new(0);
    let wire = |_: &str, _: ScalarKind| {
        next.set(next.get() + 1);
        Decoded::I32(next.get())
    };
    let entries = read_map(&row, &wire);
    assert_eq!(
        entries,
        vec![("n".to_owned(), Visit::I32(1)), ("n".to_owned(), Visit::I32(2))]
    );
    let map: HashMap<String, Visit> = entries.into_iter().collect();
    assert_eq!(map["n"], Visit::I32(2));
}

#[test]
fn value_past_the_last_column_is_a_bounds_error() {
    let row = Row::new(vec![column("one", "INT", "Long", Some(11))]);
    let mut access = RowMapAccess::new(RowDeserializer::<MySql>::new(&row));
    assert_eq!(access.next_key(), Some("one"));
    assert!(access.next_value().is_ok());
    assert_eq!(access.next_key(), None);
    match access.next_value() {
        Err(error) => assert_eq!(error, DecodeError::ColumnIndex { index: 1, len: 1 }),
        Ok(_) => panic!("a value past the last column"),
    }
    assert_eq!(access.next_key(), None);
}

#[test]
fn key_of_a_walk_that_ends_beyond_the_row() {
    let row = Row::new(vec![column("one", "INT", "Long", Some(11))]);
    let mut access = RowMapAccess::new(RowDeserializer::<MySql>::new(&row));
    access.num_cols = 4;
    assert_eq!(access.next_key(), Some("one"));
    assert!(access.next_value().is_ok());
    assert_eq!(access.next_key(), None);
    assert!(access.next_value().is_err());
    assert_eq!(access.deserializer.index, 1);
}

#[test]
fn empty_row_is_an_empty_map() {
    let row = Row::new(vec![]);
    assert_eq!(from_row::<MySql>(&row, Shape::Mapping), Ok(RowPlan::Entries { start: 0, end: 0 }));
    let access = RowMapAccess::new(RowDeserializer::<MySql>::new(&row));
    assert_eq!(access.next_key(), None);
}
