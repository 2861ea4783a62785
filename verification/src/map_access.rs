//! The cursor that hands out the columns of a row as the entries of a map,
//! keyed by column name.

use vstd::prelude::*;
use crate::databases::Database;
use crate::deserializers::RowDeserializer;
use crate::deserializers::ValueDeserializer;
use crate::deserializers::ValueType;
use crate::error::DecodeError;
use crate::error::DecodeErrorView;
use crate::row::name_view;
use crate::row::Column;
use crate::row::RawValue;
use crate::row::Row;

verus! {

/// A row walked as a map: the cursor stands on the column whose entry comes
/// next, and `num_cols` is where the walk ends.
pub struct RowMapAccess<'a, DB> {
    pub deserializer: RowDeserializer<'a, DB>,
    pub num_cols: usize,
}

/// The entries of the columns from `start` up to `end`, left to right: the
/// column's name and its raw value. Names may repeat.
pub open spec fn column_entries(row: Row, start: int, end: int) -> Seq<(Seq<char>, RawValue)> {
    row.columns@.subrange(start, end).map_values(|column: Column| (column.name@, column.value))
}

/// The view of what asking for the next value returns: the raw value that
/// it stands on.
pub open spec fn value_view<'a, DB>(result: Result<ValueDeserializer<'a, DB>, DecodeError>) -> Result<
    RawValue,
    DecodeErrorView,
> {
    match result {
        Ok(value) => Ok(*value.value),
        Err(error) => Err(error@),
    }
}

impl<'a, DB: Database> RowMapAccess<'a, DB> {
    /// The cursor is within the row, and the walk ends where the row ends.
    pub open spec fn wf(self) -> bool {
        &&& self.num_cols == self.deserializer.row.columns@.len()
        &&& self.deserializer.index <= self.num_cols
    }

    /// The entries that are still to come, in the order in which they come.
    pub open spec fn remaining(self) -> Seq<(Seq<char>, RawValue)>
        recommends
            self.wf(),
    {
        column_entries(*self.deserializer.row, self.deserializer.index as int, self.num_cols as int)
    }

    /// The key of the next entry: the name of the column under the cursor;
    /// nothing once the cursor has reached the end of the walk or of the
    /// row.
    pub open spec fn key(self) -> Option<Seq<char>> {
        if self.deserializer.index < self.num_cols {
            self.deserializer.row.name_at(self.deserializer.index)
        } else {
            None
        }
    }

    /// The value of the next entry: the value of the column under the
    /// cursor, or the bounds error where the row has no such column.
    pub open spec fn next(self) -> Result<RawValue, DecodeErrorView> {
        self.deserializer.row.raw_at(self.deserializer.index)
    }

    /// The access after the next value was asked for: one column further
    /// where a value was handed out, and as it was where none was.
    pub open spec fn advanced(self) -> Self {
        if self.next() is Ok {
            RowMapAccess {
                deserializer: RowDeserializer {
                    row: self.deserializer.row,
                    index: (self.deserializer.index + 1) as usize,
                    backend: self.deserializer.backend,
                },
                num_cols: self.num_cols,
            }
        } else {
            self
        }
    }

    /// The walk over the columns from the cursor of `deserializer` on, up
    /// to the end of the row.
    pub fn new(deserializer: RowDeserializer<'a, DB>) -> (access: Self)
        ensures
            access.deserializer == deserializer,
            access.num_cols == deserializer.row.columns@.len(),
    {
        let num_cols: usize = deserializer.row.len();
        RowMapAccess { deserializer, num_cols }
    }

    /// The key of the next entry: the name of the column under the cursor;
    /// `None` once the cursor has reached the end. The cursor stays.
    pub fn next_key(&self) -> (key: Option<&'a str>)
        ensures
            name_view(key) == self.key(),
    {
        let row: &'a Row = self.deserializer.row;
        if self.deserializer.index < self.num_cols {
            row.column_name(self.deserializer.index)
        } else {
            None
        }
    }

    /// The value of the next entry: the value of the column under the
    /// cursor, without a hint, and the cursor moves on by one. Where the row
    /// has no such column it is the bounds error, and nothing moves.
    pub fn next_value(&mut self) -> (result: Result<ValueDeserializer<'a, DB>, DecodeError>)
        ensures
            value_view(result) == old(self).next(),
            *final(self) == old(self).advanced(),
            result is Ok ==> result->Ok_0.value_type == ValueType::Any,
    {
        let row: &'a Row = self.deserializer.row;
        let count: usize = row.len();
        match row.try_get_raw(self.deserializer.index) {
            Err(error) => Err(error),
            Ok(value) => {
                assert(self.deserializer.index < count);
                let value_deserializer = ValueDeserializer::<DB>::new(value);
                self.deserializer.index += 1;
                Ok(value_deserializer)
            },
        }
    }
}

/// Walked as a map from its first column, a row gives one entry for each
/// column, in the order of the columns: the column's name as the key, the
/// column's value as the value.
pub proof fn entries_follow_columns<'a, DB: Database>(access: RowMapAccess<'a, DB>)
    requires
        access.wf(),
        access.deserializer.index == 0,
    ensures
        access.remaining().len() == access.deserializer.row.columns@.len(),
        forall|i: int|
            0 <= i < access.remaining().len() ==> access.remaining()[i] == (
                access.deserializer.row.columns@[i].name@,
                access.deserializer.row.columns@[i].value,
            ),
{
}

/// One step of a walk whose cursor is within the row takes the first of
/// the entries still to come, its name as the key and its value as the
/// value, and leaves the others to come, in their order. Once none is left
/// there is no key, a value is the bounds error, and the cursor stays.
pub proof fn step_takes_the_first<'a, DB: Database>(access: RowMapAccess<'a, DB>)
    requires
        access.wf(),
    ensures
        access.advanced().wf(),
        access.advanced().deserializer.index >= access.deserializer.index,
        access.remaining().len() == 0 ==> access.key() is None,
        access.remaining().len() == 0 ==> access.next() is Err,
        access.remaining().len() == 0 ==> access.advanced() == access,
        access.remaining().len() > 0 ==> access.key() == Some(access.remaining()[0].0),
        access.remaining().len() > 0 ==> access.next() == Ok::<RawValue, DecodeErrorView>(
            access.remaining()[0].1,
        ),
        access.remaining().len() > 0 ==> access.advanced().remaining() == access.remaining().skip(
            1,
        ),
{
    if access.remaining().len() > 0 {
        assert(access.advanced().remaining() =~= access.remaining().skip(1));
    }
}

} // verus!
