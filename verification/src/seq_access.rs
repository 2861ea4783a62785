//! The cursor that hands out the columns of a row as the elements of a
//! sequence.

use vstd::prelude::*;
use crate::databases::Database;
use crate::deserializers::RowDeserializer;
use crate::deserializers::ValueDeserializer;
use crate::deserializers::ValueType;
use crate::error::DecodeError;
use crate::error::DecodeErrorView;
use crate::row::Column;
use crate::row::RawValue;
use crate::row::Row;

verus! {

/// A row walked as a sequence: the cursor stands on the column that comes
/// next, and `num_cols` is where the walk ends.
pub struct RowSeqAccess<'a, DB> {
    pub deserializer: RowDeserializer<'a, DB>,
    pub num_cols: usize,
}

/// The raw values of the columns from `start` up to `end`, left to right.
pub open spec fn column_values(row: Row, start: int, end: int) -> Seq<RawValue> {
    row.columns@.subrange(start, end).map_values(|column: Column| column.value)
}

/// The view of what asking for the next element returns: the raw value that
/// the element stands on.
pub open spec fn element_view<'a, DB>(
    result: Result<Option<ValueDeserializer<'a, DB>>, DecodeError>,
) -> Result<Option<RawValue>, DecodeErrorView> {
    match result {
        Ok(Some(element)) => Ok(Some(*element.value)),
        Ok(None) => Ok(None),
        Err(error) => Err(error@),
    }
}

impl<'a, DB: Database> RowSeqAccess<'a, DB> {
    /// The cursor is within the row, and the walk ends where the row ends.
    pub open spec fn wf(self) -> bool {
        &&& self.num_cols == self.deserializer.row.columns@.len()
        &&& self.deserializer.index <= self.num_cols
    }

    /// The values that are still to come, in the order in which they come.
    pub open spec fn remaining(self) -> Seq<RawValue>
        recommends
            self.wf(),
    {
        column_values(*self.deserializer.row, self.deserializer.index as int, self.num_cols as int)
    }

    /// What the next element is: the value of the column under the cursor;
    /// nothing once the cursor has reached the end of the walk; the bounds
    /// error where the row has no such column.
    pub open spec fn next(self) -> Result<Option<RawValue>, DecodeErrorView> {
        if self.deserializer.index < self.num_cols {
            match self.deserializer.row.raw_at(self.deserializer.index) {
                Ok(value) => Ok(Some(value)),
                Err(error) => Err(error),
            }
        } else {
            Ok(None)
        }
    }

    /// The access after the next element was asked for: one column further
    /// where an element was handed out, and as it was where none was.
    pub open spec fn advanced(self) -> Self {
        if self.next() is Ok && self.next()->Ok_0 is Some {
            RowSeqAccess {
                deserializer: RowDeserializer {
                    row: self.deserializer.row,
                    index: (self.deserializer.index + 1) as usize,
                    backend: self.deserializer.backend,
                },
                num_cols: self.num_cols,
            }
        } else {
            self
        }
    }

    /// The walk over the columns from the cursor of `deserializer` on, up
    /// to the end of the row.
    pub fn new(deserializer: RowDeserializer<'a, DB>) -> (access: Self)
        ensures
            access.deserializer == deserializer,
            access.num_cols == deserializer.row.columns@.len(),
    {
        let num_cols: usize = deserializer.row.len();
        RowSeqAccess { deserializer, num_cols }
    }

    /// The next element: the value of the column under the cursor, without
    /// a hint, and the cursor moves on by one; `None`, and nothing moves,
    /// once the cursor has reached the end.
    pub fn next_element(&mut self) -> (element: Result<
        Option<ValueDeserializer<'a, DB>>,
        DecodeError,
    >)
        ensures
            element_view(element) == old(self).next(),
            *final(self) == old(self).advanced(),
            element is Ok && element->Ok_0 is Some ==> element->Ok_0->Some_0.value_type
                == ValueType::Any,
    {
        if self.deserializer.index < self.num_cols {
            let row: &'a Row = self.deserializer.row;
            let value = match row.try_get_raw(self.deserializer.index) {
                Err(error) => {
                    return Err(error);
                },
                Ok(value) => value,
            };
            let value_deserializer = ValueDeserializer::<DB>::new(value);
            self.deserializer.index += 1;
            Ok(Some(value_deserializer))
        } else {
            Ok(None)
        }
    }
}

/// Walked as a sequence from its first column, a row gives one element for
/// each column, and gives them in the order of the columns.
pub proof fn sequence_follows_columns<'a, DB: Database>(access: RowSeqAccess<'a, DB>)
    requires
        access.wf(),
        access.deserializer.index == 0,
    ensures
        access.remaining().len() == access.deserializer.row.columns@.len(),
        forall|i: int|
            0 <= i < access.remaining().len() ==> access.remaining()[i]
                == access.deserializer.row.columns@[i].value,
{
}

/// One step of a walk whose cursor is within the row never fails and never
/// reads a column twice: it hands out the first of the values still to
/// come and leaves the others to come, in their order, or hands out nothing
/// once none is left; and the cursor stays within the row.
pub proof fn step_takes_the_first<'a, DB: Database>(access: RowSeqAccess<'a, DB>)
    requires
        access.wf(),
    ensures
        access.advanced().wf(),
        access.advanced().deserializer.index >= access.deserializer.index,
        access.remaining().len() == 0 ==> access.next() == Ok::<
            Option<RawValue>,
            DecodeErrorView,
        >(None),
        access.remaining().len() == 0 ==> access.advanced() == access,
        access.remaining().len() > 0 ==> access.next() == Ok::<Option<RawValue>, DecodeErrorView>(
            Some(access.remaining()[0]),
        ),
        access.remaining().len() > 0 ==> access.advanced().remaining() == access.remaining().skip(
            1,
        ),
{
    if access.remaining().len() > 0 {
        assert(access.advanced().remaining() =~= access.remaining().skip(1));
    }
}

} // verus!
