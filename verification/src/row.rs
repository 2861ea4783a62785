//! One result row as the dispatch reads it: columns in order, each with its
//! name, the name of its runtime type and whether it is null.

use vstd::prelude::*;
use vstd::string::StringExecFns;
use crate::error::DecodeError;
use crate::error::DecodeErrorView;

verus! {

/// A value that is not decoded yet: the tag of its runtime type, what the
/// backend tells of that type in detail, and whether the value is null.
#[derive(Debug, Clone, PartialEq, Eq)]
pub struct RawValue {
    pub type_tag: String,
    pub type_detail: String,
    pub null: bool,
}

/// A named slot of a row, with its raw value.
#[derive(Debug, Clone, PartialEq, Eq)]
pub struct Column {
    pub name: String,
    pub value: RawValue,
}

/// One result row: its columns, left to right.
#[derive(Debug, Clone, PartialEq, Eq)]
pub struct Row {
    pub columns: Vec<Column>,
}

impl RawValue {
    /// A raw value of the named type and with the given detail.
    pub fn new(type_tag: &str, type_detail: &str, null: bool) -> (value: RawValue)
        ensures
            value.type_tag@ == type_tag@,
            value.type_detail@ == type_detail@,
            value.null == null,
    {
        RawValue {
            type_tag: String::from_str(type_tag),
            type_detail: String::from_str(type_detail),
            null,
        }
    }

    /// Whether the value is null.
    pub fn is_null(&self) -> (null: bool)
        ensures
            null == self.null,
    {
        self.null
    }
}

impl Column {
    /// A column of the given name that holds `value`.
    pub fn new(name: &str, value: RawValue) -> (column: Column)
        ensures
            column.name@ == name@,
            column.value == value,
    {
        Column { name: String::from_str(name), value }
    }
}

/// The text of a name that may be absent.
pub open spec fn name_view(name: Option<&str>) -> Option<Seq<char>> {
    match name {
        Some(name) => Some(name@),
        None => None,
    }
}

/// The view of what reading one column returns.
pub open spec fn raw_view(result: Result<&RawValue, DecodeError>) -> Result<
    RawValue,
    DecodeErrorView,
> {
    match result {
        Ok(value) => Ok(*value),
        Err(error) => Err(error@),
    }
}

impl Row {
    /// The row of the given columns.
    pub fn new(columns: Vec<Column>) -> (row: Row)
        ensures
            row.columns == columns,
    {
        Row { columns }
    }

    /// What reading the column at `index` gives: the column's raw value, or
    /// the bounds error at or beyond the number of columns.
    pub open spec fn raw_at(self, index: usize) -> Result<RawValue, DecodeErrorView> {
        if index < self.columns@.len() {
            Ok(self.columns@[index as int].value)
        } else {
            Err(DecodeErrorView::ColumnIndex { index, len: self.columns@.len() as usize })
        }
    }

    /// The number of columns.
    pub fn len(&self) -> (count: usize)
        ensures
            count == self.columns@.len(),
    {
        self.columns.len()
    }

    /// The name of the column at `index`; none at or beyond the number of
    /// columns.
    pub open spec fn name_at(self, index: usize) -> Option<Seq<char>> {
        if index < self.columns@.len() {
            Some(self.columns@[index as int].name@)
        } else {
            None
        }
    }

    /// The name of the column at `index`; `None` at or beyond the number of
    /// columns.
    pub fn column_name(&self, index: usize) -> (name: Option<&str>)
        ensures
            name_view(name) == self.name_at(index),
    {
        if index < self.columns.len() {
            Some(self.columns[index].name.as_str())
        } else {
            None
        }
    }

    /// The raw value at `index`; an error at or beyond the number of
    /// columns.
    pub fn try_get_raw(&self, index: usize) -> (result: Result<&RawValue, DecodeError>)
        ensures
            raw_view(result) == self.raw_at(index),
    {
        if index < self.columns.len() {
            Ok(&self.columns[index].value)
        } else {
            Err(DecodeError::ColumnIndex { index, len: self.columns.len() })
        }
    }
}

} // verus!
