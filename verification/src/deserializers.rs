//! The two dispatchers: one for a whole row, one for a single value.

use vstd::prelude::*;
use core::marker::PhantomData;
use crate::databases::Database;
use crate::databases::SeqPlan;
use crate::databases::ValuePlan;
use crate::error::DecodeError;
use crate::error::DecodeErrorView;
use crate::row::RawValue;
use crate::row::Row;
use crate::scalar::ScalarKind;

verus! {

/// The hint that goes with one decode attempt.
#[derive(Debug, Clone, Copy, PartialEq, Eq, Structural)]
pub enum ValueType {
    /// Decode by the runtime type alone.
    Any,
    /// The value is the tag of an enum.
    Enum,
    /// The value is a boolean, whatever its runtime type.
    Bool,
}

/// Whether an optional target gets a value.
#[derive(Debug, Clone, Copy, PartialEq, Eq, Structural)]
pub enum Presence {
    /// The consumer is told that there is no value.
    Absent,
    /// The consumer is handed the same source again, as the present value.
    Present,
}

/// An "inner" dispatcher: one raw value and its hint.
pub struct ValueDeserializer<'a, DB> {
    pub value: &'a RawValue,
    pub value_type: ValueType,
    pub backend: PhantomData<DB>,
}

impl<'a, DB: Database> ValueDeserializer<'a, DB> {
    /// What is done with the value: nothing but the signal "none" where it
    /// is null, else what the backend's switch says.
    pub open spec fn plan(self) -> ValuePlan {
        if self.value.null {
            ValuePlan::Null
        } else {
            DB::value_plan(self.value.type_tag@, self.value.type_detail@, self.value_type)
        }
    }

    /// Whether an optional target gets the value: not where it is null.
    pub open spec fn presence(self) -> Presence {
        if self.value.null {
            Presence::Absent
        } else {
            Presence::Present
        }
    }

    /// The same value under another hint.
    pub open spec fn hinted(self, hint: ValueType) -> Self {
        ValueDeserializer { value: self.value, value_type: hint, backend: self.backend }
    }

    /// The dispatcher for `val`, without a hint.
    pub fn new(val: &'a RawValue) -> (deserializer: Self)
        ensures
            deserializer.value == val,
            deserializer.value_type == ValueType::Any,
    {
        ValueDeserializer { value: val, value_type: ValueType::Any, backend: PhantomData }
    }

    /// For an optional target: absent where the value is null, else the
    /// value itself.
    pub fn deserialize_option(&self) -> (presence: Presence)
        ensures
            presence == self.presence(),
    {
        if self.value.is_null() {
            Presence::Absent
        } else {
            Presence::Present
        }
    }

    /// For any other target: "none" where the value is null, else what the
    /// backend's switch says.
    pub fn deserialize_any(self) -> (plan: ValuePlan)
        ensures
            plan == self.plan(),
    {
        if self.value.is_null() {
            return ValuePlan::Null;
        }
        DB::deserialize_value(self)
    }

    /// For an enum: as `deserialize_any`, under the hint `Enum`.
    pub fn deserialize_enum(self) -> (plan: ValuePlan)
        ensures
            plan == self.hinted(ValueType::Enum).plan(),
    {
        let mut hinted = self;
        hinted.value_type = ValueType::Enum;
        hinted.deserialize_any()
    }

    /// For a boolean: as `deserialize_any`, under the hint `Bool`.
    pub fn deserialize_bool(self) -> (plan: ValuePlan)
        ensures
            plan == self.hinted(ValueType::Bool).plan(),
    {
        let mut hinted = self;
        hinted.value_type = ValueType::Bool;
        hinted.deserialize_any()
    }
}

/// The outer dispatcher: a row and the cursor into its columns.
pub struct RowDeserializer<'a, DB> {
    pub row: &'a Row,
    pub index: usize,
    pub backend: PhantomData<DB>,
}

/// What is done with a row for one requested shape.
#[derive(Debug, Clone, Copy, PartialEq, Eq, Structural)]
pub enum RowPlan {
    /// The consumer is handed the unit value.
    Unit,
    /// The consumer is told that there is no value.
    Null,
    /// The consumer is handed the row again, as the present value.
    Present,
    /// The consumer is handed the row again, as the wrapped value.
    Newtype,
    /// The column is decoded to the kind's representation and handed on.
    Decode { column: usize, kind: ScalarKind },
    /// The consumer walks a sequence.
    Sequence(SeqPlan),
    /// The consumer walks the columns from `start` up to `end` as entries of
    /// a map, keyed by column name.
    Entries { start: usize, end: usize },
    /// The column is decoded as JSON, and the document stands in for the
    /// record as the flattening rule says.
    Json { column: usize },
}

/// The shape that the target asks of a row.
#[derive(Debug, Clone, Copy, PartialEq, Eq, Structural)]
pub enum Shape {
    /// No shape in particular.
    Any,
    /// A value that may be absent.
    Optional,
    /// A wrapper around one value.
    Newtype,
    /// A sequence of any length.
    Sequence,
    /// A sequence of fixed length.
    Tuple,
    /// A map from names to values.
    Mapping,
    /// A record with named fields.
    Record,
    /// The tag of an enum.
    Tag,
    /// A boolean.
    Boolean,
}

/// The view of what a row dispatch returns.
pub open spec fn row_view(result: Result<RowPlan, DecodeError>) -> Result<RowPlan, DecodeErrorView> {
    match result {
        Ok(plan) => Ok(plan),
        Err(error) => Err(error@),
    }
}

/// The row plan for a sequence plan or its failure.
pub open spec fn seq_row_plan(result: Result<SeqPlan, DecodeErrorView>) -> Result<
    RowPlan,
    DecodeErrorView,
> {
    match result {
        Ok(plan) => Ok(RowPlan::Sequence(plan)),
        Err(error) => Err(error),
    }
}

/// The row plan for the value plan of one column.
pub open spec fn value_row_plan(column: usize, plan: ValuePlan) -> RowPlan {
    match plan {
        ValuePlan::Null => RowPlan::Null,
        ValuePlan::Decode(kind) => RowPlan::Decode { column, kind },
    }
}

impl<'a, DB: Database> RowDeserializer<'a, DB> {
    /// The plan for the column under the cursor, decoded as a scalar under
    /// a hint: "none" for a null, the bounds error where the row has no such
    /// column.
    pub open spec fn scalar_plan(self, hint: ValueType) -> Result<RowPlan, DecodeErrorView> {
        match self.row.raw_at(self.index) {
            Err(error) => Err(error),
            Ok(raw) => Ok(
                value_row_plan(
                    self.index,
                    (ValueDeserializer::<DB> {
                        value: &raw,
                        value_type: hint,
                        backend: PhantomData,
                    }).plan(),
                ),
            ),
        }
    }

    /// The plan for a target of unspecified shape.
    pub open spec fn any_plan(self) -> Result<RowPlan, DecodeErrorView> {
        if self.row.columns@.len() == 0 {
            Ok(RowPlan::Unit)
        } else if self.row.columns@.len() > 1 {
            seq_row_plan(DB::seq_plan(*self.row, self.index))
        } else {
            match self.row.raw_at(self.index) {
                Err(error) => Err(error),
                Ok(raw) => if raw.null {
                    Ok(RowPlan::Null)
                } else if DB::sequence_type(raw.type_tag@) {
                    seq_row_plan(DB::seq_plan(*self.row, self.index))
                } else {
                    self.scalar_plan(ValueType::Any)
                },
            }
        }
    }

    /// The plan for an optional target.
    pub open spec fn option_plan(self) -> Result<RowPlan, DecodeErrorView> {
        match self.row.raw_at(0) {
            Err(error) => Err(error),
            Ok(raw) => if raw.null {
                Ok(RowPlan::Null)
            } else {
                Ok(RowPlan::Present)
            },
        }
    }

    /// The plan for a map target: every column from the cursor on.
    pub open spec fn map_plan(self) -> RowPlan {
        RowPlan::Entries { start: self.index, end: self.row.columns@.len() as usize }
    }

    /// The plan for a record target with named fields.
    pub open spec fn struct_plan(self) -> Result<RowPlan, DecodeErrorView> {
        match self.row.raw_at(self.index) {
            Err(error) => Err(error),
            Ok(raw) => if DB::json_type(raw.type_tag@) {
                Ok(RowPlan::Json { column: self.index })
            } else {
                Ok(self.map_plan())
            },
        }
    }

    /// The plan for a row and a requested shape.
    pub open spec fn row_plan(self, shape: Shape) -> Result<RowPlan, DecodeErrorView> {
        match shape {
            Shape::Any => self.any_plan(),
            Shape::Optional => self.option_plan(),
            Shape::Newtype => Ok(RowPlan::Newtype),
            Shape::Sequence => seq_row_plan(DB::seq_plan(*self.row, self.index)),
            Shape::Tuple => seq_row_plan(DB::seq_plan(*self.row, self.index)),
            Shape::Mapping => Ok(self.map_plan()),
            Shape::Record => self.struct_plan(),
            Shape::Tag => self.scalar_plan(ValueType::Enum),
            Shape::Boolean => self.scalar_plan(ValueType::Bool),
        }
    }

    /// The dispatcher for `row`, with the cursor on its first column.
    pub open spec fn at_start(row: &'a Row) -> Self {
        RowDeserializer { row, index: 0, backend: PhantomData }
    }

    /// The dispatcher for `row`, with the cursor on its first column.
    pub fn new(row: &'a Row) -> (deserializer: Self)
        ensures
            deserializer == Self::at_start(row),
    {
        RowDeserializer { row, index: 0, backend: PhantomData }
    }

    /// For an optional target: "none" where the first column is null, else
    /// the row itself as the present value.
    pub fn deserialize_option(self) -> (result: Result<RowPlan, DecodeError>)
        ensures
            row_view(result) == self.option_plan(),
    {
        match self.row.try_get_raw(0) {
            Err(error) => Err(error),
            Ok(raw_value) => if raw_value.is_null() {
                Ok(RowPlan::Null)
            } else {
                Ok(RowPlan::Present)
            },
        }
    }

    /// For a wrapper around one value: the row itself.
    pub fn deserialize_newtype_struct(self) -> (plan: RowPlan)
        ensures
            plan == RowPlan::Newtype,
    {
        RowPlan::Newtype
    }

    /// For a target of unspecified shape: unit for no column; for one
    /// column its scalar, or its array where the backend has native arrays;
    /// a sequence for more.
    pub fn deserialize_any(self) -> (result: Result<RowPlan, DecodeError>)
        ensures
            row_view(result) == self.any_plan(),
    {
        let count: usize = self.row.len();
        if count == 0 {
            return Ok(RowPlan::Unit);
        }
        if count > 1 {
            return self.deserialize_seq();
        }
        let raw_value = match self.row.try_get_raw(self.index) {
            Err(error) => {
                return Err(error);
            },
            Ok(raw_value) => raw_value,
        };
        if raw_value.is_null() {
            return Ok(RowPlan::Null);
        }
        if DB::is_sequence(raw_value.type_tag.as_str()) {
            return self.deserialize_seq();
        }
        let index: usize = self.index;
        let deserializer = ValueDeserializer::<DB>::new(raw_value);
        Ok(Self::scalar(index, deserializer.deserialize_any()))
    }

    /// For a map target: each column from the cursor on is one entry.
    pub fn deserialize_map(self) -> (plan: RowPlan)
        ensures
            plan == self.map_plan(),
    {
        RowPlan::Entries { start: self.index, end: self.row.len() }
    }

    /// For a sequence target: what the backend says.
    pub fn deserialize_seq(self) -> (result: Result<RowPlan, DecodeError>)
        ensures
            row_view(result) == seq_row_plan(DB::seq_plan(*self.row, self.index)),
    {
        match DB::deserialize_seq(self) {
            Ok(plan) => Ok(RowPlan::Sequence(plan)),
            Err(error) => Err(error),
        }
    }

    /// For a tuple target: as for a sequence.
    pub fn deserialize_tuple(self) -> (result: Result<RowPlan, DecodeError>)
        ensures
            row_view(result) == seq_row_plan(DB::seq_plan(*self.row, self.index)),
    {
        self.deserialize_seq()
    }

    /// For a record target: a JSON column under the cursor stands in for the
    /// record; any other column makes the row a map.
    pub fn deserialize_struct(self) -> (result: Result<RowPlan, DecodeError>)
        ensures
            row_view(result) == self.struct_plan(),
    {
        let raw_value = match self.row.try_get_raw(self.index) {
            Err(error) => {
                return Err(error);
            },
            Ok(raw_value) => raw_value,
        };
        if DB::is_json(raw_value.type_tag.as_str()) {
            return Ok(RowPlan::Json { column: self.index });
        }
        Ok(self.deserialize_map())
    }

    /// For an enum target: the column under the cursor, under the hint
    /// `Enum`.
    pub fn deserialize_enum(self) -> (result: Result<RowPlan, DecodeError>)
        ensures
            row_view(result) == self.scalar_plan(ValueType::Enum),
    {
        let raw_value = match self.row.try_get_raw(self.index) {
            Err(error) => {
                return Err(error);
            },
            Ok(raw_value) => raw_value,
        };
        if raw_value.is_null() {
            return Ok(RowPlan::Null);
        }
        let index: usize = self.index;
        let mut deserializer = ValueDeserializer::<DB>::new(raw_value);
        deserializer.value_type = ValueType::Enum;
        Ok(Self::scalar(index, deserializer.deserialize_any()))
    }

    /// For a boolean target: the column under the cursor, under the hint
    /// `Bool`.
    pub fn deserialize_bool(self) -> (result: Result<RowPlan, DecodeError>)
        ensures
            row_view(result) == self.scalar_plan(ValueType::Bool),
    {
        let raw_value = match self.row.try_get_raw(self.index) {
            Err(error) => {
                return Err(error);
            },
            Ok(raw_value) => raw_value,
        };
        if raw_value.is_null() {
            return Ok(RowPlan::Null);
        }
        let index: usize = self.index;
        let mut deserializer = ValueDeserializer::<DB>::new(raw_value);
        deserializer.value_type = ValueType::Bool;
        Ok(Self::scalar(index, deserializer.deserialize_any()))
    }

    /// What is done with the row for the requested shape.
    pub fn dispatch(self, shape: Shape) -> (result: Result<RowPlan, DecodeError>)
        ensures
            row_view(result) == self.row_plan(shape),
    {
        match shape {
            Shape::Any => self.deserialize_any(),
            Shape::Optional => self.deserialize_option(),
            Shape::Newtype => Ok(self.deserialize_newtype_struct()),
            Shape::Sequence => self.deserialize_seq(),
            Shape::Tuple => self.deserialize_tuple(),
            Shape::Mapping => Ok(self.deserialize_map()),
            Shape::Record => self.deserialize_struct(),
            Shape::Tag => self.deserialize_enum(),
            Shape::Boolean => self.deserialize_bool(),
        }
    }

    fn scalar(column: usize, plan: ValuePlan) -> (row_plan: RowPlan)
        ensures
            row_plan == value_row_plan(column, plan),
    {
        match plan {
            ValuePlan::Null => RowPlan::Null,
            ValuePlan::Decode(kind) => RowPlan::Decode { column, kind },
        }
    }
}

/// A null is never decoded: whatever the backend, the runtime type and the
/// hint, the consumer of a null value is told that there is no value, and an
/// optional target gets none.
pub proof fn null_is_absent<'a, DB: Database>(deserializer: ValueDeserializer<'a, DB>)
    requires
        deserializer.value.null,
    ensures
        deserializer.plan() == ValuePlan::Null,
{
}

/// A row whose column under the cursor is null gives "none" for a scalar
/// under any hint, and a row whose first column is null gives "none" for an
/// optional target.
pub proof fn null_column_is_absent<'a, DB: Database>(
    deserializer: RowDeserializer<'a, DB>,
    hint: ValueType,
)
    requires
        deserializer.index < deserializer.row.columns@.len(),
        deserializer.row.columns@[deserializer.index as int].value.null,
    ensures
        deserializer.scalar_plan(hint) == Ok::<RowPlan, DecodeErrorView>(RowPlan::Null),
        deserializer.index == 0 ==> deserializer.option_plan() == Ok::<RowPlan, DecodeErrorView>(
            RowPlan::Null,
        ),
        deserializer.row.columns@.len() == 1 ==> deserializer.any_plan() == Ok::<
            RowPlan,
            DecodeErrorView,
        >(RowPlan::Null),
{
}

} // verus!
