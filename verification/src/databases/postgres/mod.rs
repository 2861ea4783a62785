//! The PostgreSQL backend: native arrays, two JSON types.

use vstd::prelude::*;
use crate::databases::columns_plan;
use crate::databases::ArrayKind;
use crate::databases::Database;
use crate::databases::SeqPlan;
use crate::databases::ValuePlan;
use crate::deserializers::RowDeserializer;
use crate::deserializers::RowPlan;
use crate::deserializers::Shape;
use crate::deserializers::ValueDeserializer;
use crate::deserializers::ValueType;
use crate::error::DecodeError;
use crate::error::DecodeErrorView;
use crate::row::Row;
use crate::scalar::ScalarKind;
use crate::text::ends_with;
use crate::text::has_suffix;
use crate::text::str_eq;
use vstd::string::StringExecFns;

pub mod seq;

verus! {

/// The PostgreSQL backend.
#[derive(Debug, Clone, Copy, PartialEq, Eq, Structural)]
pub struct Postgres;

/// Whether the switch on the type name lists the name.
pub open spec fn listed(tag: Seq<char>) -> bool {
    ||| tag == "FLOAT4"@
    ||| tag == "FLOAT8"@
    ||| tag == "NUMERIC"@
    ||| tag == "INT8"@
    ||| tag == "INT4"@
    ||| tag == "INT2"@
    ||| tag == "BOOL"@
    ||| tag == "DATE"@
    ||| tag == "TIME"@
    ||| tag == "TIMETZ"@
    ||| tag == "TIMESTAMP"@
    ||| tag == "TIMESTAMPTZ"@
    ||| tag == "UUID"@
    ||| tag == "BYTEA"@
    ||| tag == "INTERVAL"@
    ||| tag == "CHAR"@
    ||| tag == "TEXT"@
    ||| tag == "JSON"@
    ||| tag == "JSONB"@
}

/// The switch on the name of the runtime type. A name that is not listed is
/// decoded as text.
pub open spec fn kind_of(tag: Seq<char>) -> ScalarKind {
    if tag == "FLOAT4"@ {
        ScalarKind::F32
    } else if tag == "FLOAT8"@ {
        ScalarKind::F64
    } else if tag == "NUMERIC"@ {
        ScalarKind::Decimal
    } else if tag == "INT8"@ {
        ScalarKind::I64
    } else if tag == "INT4"@ {
        ScalarKind::I32
    } else if tag == "INT2"@ {
        ScalarKind::I16
    } else if tag == "BOOL"@ {
        ScalarKind::Bool
    } else if tag == "DATE"@ {
        ScalarKind::Date
    } else if tag == "TIME"@ || tag == "TIMETZ"@ {
        ScalarKind::Time
    } else if tag == "TIMESTAMP"@ || tag == "TIMESTAMPTZ"@ {
        ScalarKind::Timestamp
    } else if tag == "UUID"@ {
        ScalarKind::Uuid
    } else if tag == "BYTEA"@ {
        ScalarKind::Bytes
    } else if tag == "INTERVAL"@ {
        ScalarKind::Interval
    } else if tag == "CHAR"@ || tag == "TEXT"@ {
        ScalarKind::Text
    } else if tag == "JSON"@ || tag == "JSONB"@ {
        ScalarKind::Json
    } else {
        ScalarKind::Text
    }
}

/// The name of an array type without the `[]` that it ends in: the name of
/// the type of its elements.
pub open spec fn element_tag(tag: Seq<char>) -> Seq<char> {
    tag.subrange(0, tag.len() - 2)
}

/// The element type of a native array column: every type whose name ends
/// in `[]` is one, and its elements are decoded as the switch says for the
/// name of their own type, so as text where it does not list that name.
/// `None` for every other type.
pub open spec fn array_kind(tag: Seq<char>) -> Option<ArrayKind> {
    if has_suffix(tag, "[]"@) {
        Some(ArrayKind { element: kind_of(element_tag(tag)) })
    } else {
        None
    }
}

fn switch(tag: &str) -> (kind: ScalarKind)
    ensures
        kind == kind_of(tag@),
{
    if str_eq(tag, "FLOAT4") {
        ScalarKind::F32
    } else if str_eq(tag, "FLOAT8") {
        ScalarKind::F64
    } else if str_eq(tag, "NUMERIC") {
        ScalarKind::Decimal
    } else if str_eq(tag, "INT8") {
        ScalarKind::I64
    } else if str_eq(tag, "INT4") {
        ScalarKind::I32
    } else if str_eq(tag, "INT2") {
        ScalarKind::I16
    } else if str_eq(tag, "BOOL") {
        ScalarKind::Bool
    } else if str_eq(tag, "DATE") {
        ScalarKind::Date
    } else if str_eq(tag, "TIME") || str_eq(tag, "TIMETZ") {
        ScalarKind::Time
    } else if str_eq(tag, "TIMESTAMP") || str_eq(tag, "TIMESTAMPTZ") {
        ScalarKind::Timestamp
    } else if str_eq(tag, "UUID") {
        ScalarKind::Uuid
    } else if str_eq(tag, "BYTEA") {
        ScalarKind::Bytes
    } else if str_eq(tag, "INTERVAL") {
        ScalarKind::Interval
    } else if str_eq(tag, "CHAR") || str_eq(tag, "TEXT") {
        ScalarKind::Text
    } else if str_eq(tag, "JSON") || str_eq(tag, "JSONB") {
        ScalarKind::Json
    } else {
        ScalarKind::Text
    }
}

/// The walk over the elements of the native array in the column at `index`,
/// whose type has the name `tag`.
pub open spec fn array_plan(tag: Seq<char>, index: usize) -> SeqPlan {
    SeqPlan::Array { column: index, kind: ArrayKind { element: kind_of(element_tag(tag)) } }
}

fn array_switch(tag: &str) -> (kind: Option<ArrayKind>)
    ensures
        kind == array_kind(tag@),
{
    if ends_with(tag, "[]") {
        proof {
            reveal_strlit("[]");
        }
        let length: usize = tag.unicode_len();
        let element: &str = tag.substring_char(0, length - 2);
        Some(ArrayKind { element: switch(element) })
    } else {
        None
    }
}

impl Database for Postgres {
    open spec fn json_type(type_tag: Seq<char>) -> bool {
        type_tag == "JSON"@ || type_tag == "JSONB"@
    }

    open spec fn json_failure(cause: Seq<char>) -> DecodeErrorView {
        DecodeErrorView::JsonColumn { target: ScalarKind::Json.target(), cause }
    }

    open spec fn sequence_type(type_tag: Seq<char>) -> bool {
        has_suffix(type_tag, "[]"@)
    }

    /// A native array column under the cursor is the sequence, whatever the
    /// type of its elements; under any other column the columns are.
    open spec fn seq_plan(row: Row, index: usize) -> Result<SeqPlan, DecodeErrorView> {
        match row.raw_at(index) {
            Err(error) => Err(error),
            Ok(raw) => match array_kind(raw.type_tag@) {
                Some(kind) => Ok(SeqPlan::Array { column: index, kind }),
                None => Ok(columns_plan(row, index)),
            },
        }
    }

    /// An enum hint asks for the tag as text, whatever the type; any other
    /// value goes by the name of its type.
    open spec fn value_plan(type_tag: Seq<char>, type_detail: Seq<char>, hint: ValueType) -> ValuePlan {
        if hint == ValueType::Enum {
            ValuePlan::Decode(ScalarKind::Enum)
        } else {
            ValuePlan::Decode(kind_of(type_tag))
        }
    }

    fn is_json(type_tag: &str) -> (yes: bool) {
        str_eq(type_tag, "JSON") || str_eq(type_tag, "JSONB")
    }

    fn deserialize_json(outcome: Result<serde_json::Value, String>) -> (result: Result<
        serde_json::Value,
        DecodeError,
    >) {
        match outcome {
            Ok(doc) => Ok(doc),
            Err(cause) => Err(
                DecodeError::JsonColumn {
                    target: String::from_str(ScalarKind::Json.target_name()),
                    cause,
                },
            ),
        }
    }

    fn is_sequence(type_tag: &str) -> (yes: bool) {
        ends_with(type_tag, "[]")
    }

    fn deserialize_seq<'a>(row_deserializer: RowDeserializer<'a, Self>) -> (result: Result<
        SeqPlan,
        DecodeError,
    >) {
        let raw_value = match row_deserializer.row.try_get_raw(row_deserializer.index) {
            Err(error) => {
                return Err(error);
            },
            Ok(raw_value) => raw_value,
        };
        match array_switch(raw_value.type_tag.as_str()) {
            Some(kind) => Ok(SeqPlan::Array { column: row_deserializer.index, kind }),
            None => {
                let num_cols: usize = row_deserializer.row.len();
                Ok(SeqPlan::Columns { start: row_deserializer.index, end: num_cols })
            },
        }
    }

    fn deserialize_value<'a>(deserializer: ValueDeserializer<'a, Self>) -> (plan: ValuePlan) {
        match deserializer.value_type {
            ValueType::Enum => ValuePlan::Decode(ScalarKind::Enum),
            _ => ValuePlan::Decode(switch(deserializer.value.type_tag.as_str())),
        }
    }
}

/// A runtime type that the switch does not list, and that is no native
/// array, is decoded as text, and the text goes to the consumer unchanged.
pub proof fn unlisted_is_text(
    type_tag: Seq<char>,
    type_detail: Seq<char>,
    hint: ValueType,
    text: Seq<char>,
)
    requires
        !listed(type_tag),
        !Postgres::sequence_type(type_tag),
        hint != ValueType::Enum,
    ensures
        Postgres::value_plan(type_tag, type_detail, hint) == ValuePlan::Decode(ScalarKind::Text),
        ScalarKind::Text.visit_of(crate::scalar::DecodedView::Text(text)) == Ok::<
            crate::scalar::VisitView,
            DecodeErrorView,
        >(crate::scalar::VisitView::Text(text)),
{
}

/// The types that are decoded as native arrays are exactly the sequence
/// types, and a column of such a type under the cursor is always walked as
/// its array, never as the columns of the row.
pub proof fn arrays_are_the_sequence_types(row: Row, index: usize)
    ensures
        forall|tag: Seq<char>| #[trigger] array_kind(tag) is Some <==> Postgres::sequence_type(tag),
        index < row.columns@.len() && Postgres::sequence_type(
            row.columns@[index as int].value.type_tag@,
        ) ==> Postgres::seq_plan(row, index) == Ok::<SeqPlan, DecodeErrorView>(
            array_plan(row.columns@[index as int].value.type_tag@, index),
        ),
        index < row.columns@.len() && !Postgres::sequence_type(
            row.columns@[index as int].value.type_tag@,
        ) ==> Postgres::seq_plan(row, index) == Ok::<SeqPlan, DecodeErrorView>(
            columns_plan(row, index),
        ),
{
}

/// A row of one column that is a native array and not null is a sequence
/// over the elements of the array for a target of unspecified shape, and so
/// is any row whose column under the cursor is a native array for a sequence
/// or a tuple.
pub proof fn array_column_is_its_elements<'a>(deserializer: RowDeserializer<'a, Postgres>)
    requires
        deserializer.index < deserializer.row.columns@.len(),
        Postgres::sequence_type(
            deserializer.row.columns@[deserializer.index as int].value.type_tag@,
        ),
    ensures
        deserializer.row_plan(Shape::Sequence) == Ok::<RowPlan, DecodeErrorView>(
            RowPlan::Sequence(
                array_plan(
                    deserializer.row.columns@[deserializer.index as int].value.type_tag@,
                    deserializer.index,
                ),
            ),
        ),
        deserializer.row_plan(Shape::Tuple) == deserializer.row_plan(Shape::Sequence),
        deserializer.row.columns@.len() == 1
            && !deserializer.row.columns@[deserializer.index as int].value.null
            ==> deserializer.row_plan(Shape::Any) == deserializer.row_plan(Shape::Sequence),
{
}

/// The switch, name by name: every listed runtime type and the kind that it
/// is decoded to.
pub proof fn listed_kinds()
    ensures
        kind_of("FLOAT4"@) == ScalarKind::F32,
        kind_of("FLOAT8"@) == ScalarKind::F64,
        kind_of("NUMERIC"@) == ScalarKind::Decimal,
        kind_of("INT8"@) == ScalarKind::I64,
        kind_of("INT4"@) == ScalarKind::I32,
        kind_of("INT2"@) == ScalarKind::I16,
        kind_of("BOOL"@) == ScalarKind::Bool,
        kind_of("DATE"@) == ScalarKind::Date,
        kind_of("TIME"@) == ScalarKind::Time,
        kind_of("TIMETZ"@) == ScalarKind::Time,
        kind_of("TIMESTAMP"@) == ScalarKind::Timestamp,
        kind_of("TIMESTAMPTZ"@) == ScalarKind::Timestamp,
        kind_of("UUID"@) == ScalarKind::Uuid,
        kind_of("BYTEA"@) == ScalarKind::Bytes,
        kind_of("INTERVAL"@) == ScalarKind::Interval,
        kind_of("CHAR"@) == ScalarKind::Text,
        kind_of("TEXT"@) == ScalarKind::Text,
        kind_of("JSON"@) == ScalarKind::Json,
        kind_of("JSONB"@) == ScalarKind::Json,
{
    reveal_strlit("FLOAT4");
    reveal_strlit("FLOAT8");
    reveal_strlit("NUMERIC");
    reveal_strlit("INT8");
    reveal_strlit("INT4");
    reveal_strlit("INT2");
    reveal_strlit("BOOL");
    reveal_strlit("DATE");
    reveal_strlit("TIME");
    reveal_strlit("TIMETZ");
    reveal_strlit("TIMESTAMP");
    reveal_strlit("TIMESTAMPTZ");
    reveal_strlit("UUID");
    reveal_strlit("BYTEA");
    reveal_strlit("INTERVAL");
    reveal_strlit("CHAR");
    reveal_strlit("TEXT");
    reveal_strlit("JSON");
    reveal_strlit("JSONB");
    assert("FLOAT4"@.len() == 6 && "FLOAT4"@[0] == 'F' && "FLOAT4"@[1] == 'L' && "FLOAT4"@[2] == 'O' && "FLOAT4"@[3] == 'A' && "FLOAT4"@[4] == 'T' && "FLOAT4"@[5] == '4');
    assert("FLOAT8"@.len() == 6 && "FLOAT8"@[0] == 'F' && "FLOAT8"@[1] == 'L' && "FLOAT8"@[2] == 'O' && "FLOAT8"@[3] == 'A' && "FLOAT8"@[4] == 'T' && "FLOAT8"@[5] == '8');
    assert("NUMERIC"@.len() == 7 && "NUMERIC"@[0] == 'N' && "NUMERIC"@[1] == 'U' && "NUMERIC"@[2] == 'M' && "NUMERIC"@[3] == 'E' && "NUMERIC"@[4] == 'R' && "NUMERIC"@[5] == 'I' && "NUMERIC"@[6] == 'C');
    assert("INT8"@.len() == 4 && "INT8"@[0] == 'I' && "INT8"@[1] == 'N' && "INT8"@[2] == 'T' && "INT8"@[3] == '8');
    assert("INT4"@.len() == 4 && "INT4"@[0] == 'I' && "INT4"@[1] == 'N' && "INT4"@[2] == 'T' && "INT4"@[3] == '4');
    assert("INT2"@.len() == 4 && "INT2"@[0] == 'I' && "INT2"@[1] == 'N' && "INT2"@[2] == 'T' && "INT2"@[3] == '2');
    assert("BOOL"@.len() == 4 && "BOOL"@[0] == 'B' && "BOOL"@[1] == 'O' && "BOOL"@[2] == 'O' && "BOOL"@[3] == 'L');
    assert("DATE"@.len() == 4 && "DATE"@[0] == 'D' && "DATE"@[1] == 'A' && "DATE"@[2] == 'T' && "DATE"@[3] == 'E');
    assert("TIME"@.len() == 4 && "TIME"@[0] == 'T' && "TIME"@[1] == 'I' && "TIME"@[2] == 'M' && "TIME"@[3] == 'E');
    assert("TIMETZ"@.len() == 6 && "TIMETZ"@[0] == 'T' && "TIMETZ"@[1] == 'I' && "TIMETZ"@[2] == 'M' && "TIMETZ"@[3] == 'E' && "TIMETZ"@[4] == 'T' && "TIMETZ"@[5] == 'Z');
    assert("TIMESTAMP"@.len() == 9 && "TIMESTAMP"@[0] == 'T' && "TIMESTAMP"@[1] == 'I' && "TIMESTAMP"@[2] == 'M' && "TIMESTAMP"@[3] == 'E' && "TIMESTAMP"@[4] == 'S' && "TIMESTAMP"@[5] == 'T' && "TIMESTAMP"@[6] == 'A' && "TIMESTAMP"@[7] == 'M' && "TIMESTAMP"@[8] == 'P');
    assert("TIMESTAMPTZ"@.len() == 11 && "TIMESTAMPTZ"@[0] == 'T' && "TIMESTAMPTZ"@[1] == 'I' && "TIMESTAMPTZ"@[2] == 'M' && "TIMESTAMPTZ"@[3] == 'E' && "TIMESTAMPTZ"@[4] == 'S' && "TIMESTAMPTZ"@[5] == 'T' && "TIMESTAMPTZ"@[6] == 'A' && "TIMESTAMPTZ"@[7] == 'M' && "TIMESTAMPTZ"@[8] == 'P' && "TIMESTAMPTZ"@[9] == 'T' && "TIMESTAMPTZ"@[10] == 'Z');
    assert("UUID"@.len() == 4 && "UUID"@[0] == 'U' && "UUID"@[1] == 'U' && "UUID"@[2] == 'I' && "UUID"@[3] == 'D');
    assert("BYTEA"@.len() == 5 && "BYTEA"@[0] == 'B' && "BYTEA"@[1] == 'Y' && "BYTEA"@[2] == 'T' && "BYTEA"@[3] == 'E' && "BYTEA"@[4] == 'A');
    assert("INTERVAL"@.len() == 8 && "INTERVAL"@[0] == 'I' && "INTERVAL"@[1] == 'N' && "INTERVAL"@[2] == 'T' && "INTERVAL"@[3] == 'E' && "INTERVAL"@[4] == 'R' && "INTERVAL"@[5] == 'V' && "INTERVAL"@[6] == 'A' && "INTERVAL"@[7] == 'L');
    assert("CHAR"@.len() == 4 && "CHAR"@[0] == 'C' && "CHAR"@[1] == 'H' && "CHAR"@[2] == 'A' && "CHAR"@[3] == 'R');
    assert("TEXT"@.len() == 4 && "TEXT"@[0] == 'T' && "TEXT"@[1] == 'E' && "TEXT"@[2] == 'X' && "TEXT"@[3] == 'T');
    assert("JSON"@.len() == 4 && "JSON"@[0] == 'J' && "JSON"@[1] == 'S' && "JSON"@[2] == 'O' && "JSON"@[3] == 'N');
    assert("JSONB"@.len() == 5 && "JSONB"@[0] == 'J' && "JSONB"@[1] == 'S' && "JSONB"@[2] == 'O' && "JSONB"@[3] == 'N' && "JSONB"@[4] == 'B');
}

/// The arrays of the listed types, name by name, each with the kind of its
/// elements: the kind of the type itself.
pub proof fn listed_arrays()
    ensures
        array_kind("FLOAT4[]"@) == Some(ArrayKind { element: ScalarKind::F32 }),
        array_kind("FLOAT8[]"@) == Some(ArrayKind { element: ScalarKind::F64 }),
        array_kind("NUMERIC[]"@) == Some(ArrayKind { element: ScalarKind::Decimal }),
        array_kind("INT8[]"@) == Some(ArrayKind { element: ScalarKind::I64 }),
        array_kind("INT4[]"@) == Some(ArrayKind { element: ScalarKind::I32 }),
        array_kind("INT2[]"@) == Some(ArrayKind { element: ScalarKind::I16 }),
        array_kind("BOOL[]"@) == Some(ArrayKind { element: ScalarKind::Bool }),
        array_kind("DATE[]"@) == Some(ArrayKind { element: ScalarKind::Date }),
        array_kind("TIME[]"@) == Some(ArrayKind { element: ScalarKind::Time }),
        array_kind("TIMETZ[]"@) == Some(ArrayKind { element: ScalarKind::Time }),
        array_kind("TIMESTAMP[]"@) == Some(ArrayKind { element: ScalarKind::Timestamp }),
        array_kind("TIMESTAMPTZ[]"@) == Some(ArrayKind { element: ScalarKind::Timestamp }),
        array_kind("UUID[]"@) == Some(ArrayKind { element: ScalarKind::Uuid }),
        array_kind("BYTEA[]"@) == Some(ArrayKind { element: ScalarKind::Bytes }),
        array_kind("INTERVAL[]"@) == Some(ArrayKind { element: ScalarKind::Interval }),
        array_kind("CHAR[]"@) == Some(ArrayKind { element: ScalarKind::Text }),
        array_kind("TEXT[]"@) == Some(ArrayKind { element: ScalarKind::Text }),
        array_kind("JSON[]"@) == Some(ArrayKind { element: ScalarKind::Json }),
        array_kind("JSONB[]"@) == Some(ArrayKind { element: ScalarKind::Json }),
{
    listed_kinds();
    reveal_strlit("[]");
    reveal_strlit("FLOAT4");
    reveal_strlit("FLOAT4[]");
    reveal_strlit("FLOAT8");
    reveal_strlit("FLOAT8[]");
    reveal_strlit("NUMERIC");
    reveal_strlit("NUMERIC[]");
    reveal_strlit("INT8");
    reveal_strlit("INT8[]");
    reveal_strlit("INT4");
    reveal_strlit("INT4[]");
    reveal_strlit("INT2");
    reveal_strlit("INT2[]");
    reveal_strlit("BOOL");
    reveal_strlit("BOOL[]");
    reveal_strlit("DATE");
    reveal_strlit("DATE[]");
    reveal_strlit("TIME");
    reveal_strlit("TIME[]");
    reveal_strlit("TIMETZ");
    reveal_strlit("TIMETZ[]");
    reveal_strlit("TIMESTAMP");
    reveal_strlit("TIMESTAMP[]");
    reveal_strlit("TIMESTAMPTZ");
    reveal_strlit("TIMESTAMPTZ[]");
    reveal_strlit("UUID");
    reveal_strlit("UUID[]");
    reveal_strlit("BYTEA");
    reveal_strlit("BYTEA[]");
    reveal_strlit("INTERVAL");
    reveal_strlit("INTERVAL[]");
    reveal_strlit("CHAR");
    reveal_strlit("CHAR[]");
    reveal_strlit("TEXT");
    reveal_strlit("TEXT[]");
    reveal_strlit("JSON");
    reveal_strlit("JSON[]");
    reveal_strlit("JSONB");
    reveal_strlit("JSONB[]");
    assert("FLOAT4[]"@.subrange(6, 8) =~= "[]"@);
    assert(element_tag("FLOAT4[]"@) =~= "FLOAT4"@);
    assert("FLOAT8[]"@.subrange(6, 8) =~= "[]"@);
    assert(element_tag("FLOAT8[]"@) =~= "FLOAT8"@);
    assert("NUMERIC[]"@.subrange(7, 9) =~= "[]"@);
    assert(element_tag("NUMERIC[]"@) =~= "NUMERIC"@);
    assert("INT8[]"@.subrange(4, 6) =~= "[]"@);
    assert(element_tag("INT8[]"@) =~= "INT8"@);
    assert("INT4[]"@.subrange(4, 6) =~= "[]"@);
    assert(element_tag("INT4[]"@) =~= "INT4"@);
    assert("INT2[]"@.subrange(4, 6) =~= "[]"@);
    assert(element_tag("INT2[]"@) =~= "INT2"@);
    assert("BOOL[]"@.subrange(4, 6) =~= "[]"@);
    assert(element_tag("BOOL[]"@) =~= "BOOL"@);
    assert("DATE[]"@.subrange(4, 6) =~= "[]"@);
    assert(element_tag("DATE[]"@) =~= "DATE"@);
    assert("TIME[]"@.subrange(4, 6) =~= "[]"@);
    assert(element_tag("TIME[]"@) =~= "TIME"@);
    assert("TIMETZ[]"@.subrange(6, 8) =~= "[]"@);
    assert(element_tag("TIMETZ[]"@) =~= "TIMETZ"@);
    assert("TIMESTAMP[]"@.subrange(9, 11) =~= "[]"@);
    assert(element_tag("TIMESTAMP[]"@) =~= "TIMESTAMP"@);
    assert("TIMESTAMPTZ[]"@.subrange(11, 13) =~= "[]"@);
    assert(element_tag("TIMESTAMPTZ[]"@) =~= "TIMESTAMPTZ"@);
    assert("UUID[]"@.subrange(4, 6) =~= "[]"@);
    assert(element_tag("UUID[]"@) =~= "UUID"@);
    assert("BYTEA[]"@.subrange(5, 7) =~= "[]"@);
    assert(element_tag("BYTEA[]"@) =~= "BYTEA"@);
    assert("INTERVAL[]"@.subrange(8, 10) =~= "[]"@);
    assert(element_tag("INTERVAL[]"@) =~= "INTERVAL"@);
    assert("CHAR[]"@.subrange(4, 6) =~= "[]"@);
    assert(element_tag("CHAR[]"@) =~= "CHAR"@);
    assert("TEXT[]"@.subrange(4, 6) =~= "[]"@);
    assert(element_tag("TEXT[]"@) =~= "TEXT"@);
    assert("JSON[]"@.subrange(4, 6) =~= "[]"@);
    assert(element_tag("JSON[]"@) =~= "JSON"@);
    assert("JSONB[]"@.subrange(5, 7) =~= "[]"@);
    assert(element_tag("JSONB[]"@) =~= "JSONB"@);
}

} // verus!
