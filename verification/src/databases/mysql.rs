//! The MySQL backend: no native arrays, one JSON type, and integers of one
//! bit that stand for booleans.

use vstd::prelude::*;
use crate::databases::columns_plan;
use crate::databases::Database;
use crate::databases::SeqPlan;
use crate::databases::ValuePlan;
use crate::deserializers::RowDeserializer;
use crate::deserializers::ValueDeserializer;
use crate::deserializers::ValueType;
use crate::error::DecodeError;
use crate::error::DecodeErrorView;
use crate::row::Row;
use crate::scalar::ScalarKind;
use crate::text::contains;
use crate::text::has_infix;
use crate::text::str_eq;

verus! {

/// The MySQL backend.
#[derive(Debug, Clone, Copy, PartialEq, Eq, Structural)]
pub struct MySql;

/// Whether the detail of a runtime type tells of a column one unit wide,
/// which MySQL uses for booleans.
pub open spec fn single_bit(type_detail: Seq<char>) -> bool {
    has_infix(type_detail, "max_size: Some(1)"@)
}

/// Whether the switch on the type name lists the name.
pub open spec fn listed(tag: Seq<char>) -> bool {
    ||| tag == "TINYINT"@
    ||| tag == "TINYINT UNSIGNED"@
    ||| tag == "SMALLINT"@
    ||| tag == "SMALLINT UNSIGNED"@
    ||| tag == "INT"@
    ||| tag == "MEDIUMINT"@
    ||| tag == "YEAR"@
    ||| tag == "INT UNSIGNED"@
    ||| tag == "MEDIUMINT UNSIGNED"@
    ||| tag == "BIGINT"@
    ||| tag == "BIGINT UNSIGNED"@
    ||| tag == "FLOAT"@
    ||| tag == "DOUBLE"@
    ||| tag == "DECIMAL"@
    ||| tag == "BOOLEAN"@
    ||| is_text(tag)
    ||| is_binary(tag)
    ||| tag == "DATE"@
    ||| tag == "TIME"@
    ||| tag == "DATETIME"@
    ||| tag == "TIMESTAMP"@
    ||| tag == "JSON"@
    ||| tag == "NULL"@
}

/// The names of the text types.
pub open spec fn is_text(tag: Seq<char>) -> bool {
    ||| tag == "CHAR"@
    ||| tag == "VARCHAR"@
    ||| tag == "ENUM"@
    ||| tag == "SET"@
    ||| tag == "TINYTEXT"@
    ||| tag == "TEXT"@
    ||| tag == "MEDIUMTEXT"@
    ||| tag == "LONGTEXT"@
}

/// The names of the binary types.
pub open spec fn is_binary(tag: Seq<char>) -> bool {
    ||| tag == "BINARY"@
    ||| tag == "BIT"@
    ||| tag == "TINYBLOB"@
    ||| tag == "BLOB"@
    ||| tag == "MEDIUMBLOB"@
    ||| tag == "LONGBLOB"@
    ||| tag == "VARBINARY"@
}

/// The switch on the name of the runtime type. A name that is not listed is
/// decoded as text.
pub open spec fn kind_of(tag: Seq<char>) -> ValuePlan {
    if tag == "TINYINT"@ {
        ValuePlan::Decode(ScalarKind::I8)
    } else if tag == "TINYINT UNSIGNED"@ {
        ValuePlan::Decode(ScalarKind::U8)
    } else if tag == "SMALLINT"@ {
        ValuePlan::Decode(ScalarKind::I16)
    } else if tag == "SMALLINT UNSIGNED"@ {
        ValuePlan::Decode(ScalarKind::U16)
    } else if tag == "INT"@ || tag == "MEDIUMINT"@ || tag == "YEAR"@ {
        ValuePlan::Decode(ScalarKind::I32)
    } else if tag == "INT UNSIGNED"@ || tag == "MEDIUMINT UNSIGNED"@ {
        ValuePlan::Decode(ScalarKind::U32)
    } else if tag == "BIGINT"@ {
        ValuePlan::Decode(ScalarKind::I64)
    } else if tag == "BIGINT UNSIGNED"@ {
        ValuePlan::Decode(ScalarKind::U64)
    } else if tag == "FLOAT"@ {
        ValuePlan::Decode(ScalarKind::F32)
    } else if tag == "DOUBLE"@ {
        ValuePlan::Decode(ScalarKind::F64)
    } else if tag == "DECIMAL"@ {
        ValuePlan::Decode(ScalarKind::Decimal)
    } else if tag == "BOOLEAN"@ {
        ValuePlan::Decode(ScalarKind::Bool)
    } else if is_text(tag) {
        ValuePlan::Decode(ScalarKind::Text)
    } else if is_binary(tag) {
        ValuePlan::Decode(ScalarKind::Bytes)
    } else if tag == "DATE"@ {
        ValuePlan::Decode(ScalarKind::Date)
    } else if tag == "TIME"@ {
        ValuePlan::Decode(ScalarKind::Time)
    } else if tag == "DATETIME"@ || tag == "TIMESTAMP"@ {
        ValuePlan::Decode(ScalarKind::DateTime)
    } else if tag == "JSON"@ {
        ValuePlan::Decode(ScalarKind::Json)
    } else if tag == "NULL"@ {
        ValuePlan::Null
    } else {
        ValuePlan::Decode(ScalarKind::Text)
    }
}

fn text_type(tag: &str) -> (yes: bool)
    ensures
        yes == is_text(tag@),
{
    str_eq(tag, "CHAR") || str_eq(tag, "VARCHAR") || str_eq(tag, "ENUM") || str_eq(tag, "SET")
        || str_eq(tag, "TINYTEXT") || str_eq(tag, "TEXT") || str_eq(tag, "MEDIUMTEXT") || str_eq(
        tag,
        "LONGTEXT",
    )
}

fn binary_type(tag: &str) -> (yes: bool)
    ensures
        yes == is_binary(tag@),
{
    str_eq(tag, "BINARY") || str_eq(tag, "BIT") || str_eq(tag, "TINYBLOB") || str_eq(tag, "BLOB")
        || str_eq(tag, "MEDIUMBLOB") || str_eq(tag, "LONGBLOB") || str_eq(tag, "VARBINARY")
}

fn switch(tag: &str) -> (plan: ValuePlan)
    ensures
        plan == kind_of(tag@),
{
    if str_eq(tag, "TINYINT") {
        ValuePlan::Decode(ScalarKind::I8)
    } else if str_eq(tag, "TINYINT UNSIGNED") {
        ValuePlan::Decode(ScalarKind::U8)
    } else if str_eq(tag, "SMALLINT") {
        ValuePlan::Decode(ScalarKind::I16)
    } else if str_eq(tag, "SMALLINT UNSIGNED") {
        ValuePlan::Decode(ScalarKind::U16)
    } else if str_eq(tag, "INT") || str_eq(tag, "MEDIUMINT") || str_eq(tag, "YEAR") {
        ValuePlan::Decode(ScalarKind::I32)
    } else if str_eq(tag, "INT UNSIGNED") || str_eq(tag, "MEDIUMINT UNSIGNED") {
        ValuePlan::Decode(ScalarKind::U32)
    } else if str_eq(tag, "BIGINT") {
        ValuePlan::Decode(ScalarKind::I64)
    } else if str_eq(tag, "BIGINT UNSIGNED") {
        ValuePlan::Decode(ScalarKind::U64)
    } else if str_eq(tag, "FLOAT") {
        ValuePlan::Decode(ScalarKind::F32)
    } else if str_eq(tag, "DOUBLE") {
        ValuePlan::Decode(ScalarKind::F64)
    } else if str_eq(tag, "DECIMAL") {
        ValuePlan::Decode(ScalarKind::Decimal)
    } else if str_eq(tag, "BOOLEAN") {
        ValuePlan::Decode(ScalarKind::Bool)
    } else if text_type(tag) {
        ValuePlan::Decode(ScalarKind::Text)
    } else if binary_type(tag) {
        ValuePlan::Decode(ScalarKind::Bytes)
    } else if str_eq(tag, "DATE") {
        ValuePlan::Decode(ScalarKind::Date)
    } else if str_eq(tag, "TIME") {
        ValuePlan::Decode(ScalarKind::Time)
    } else if str_eq(tag, "DATETIME") || str_eq(tag, "TIMESTAMP") {
        ValuePlan::Decode(ScalarKind::DateTime)
    } else if str_eq(tag, "JSON") {
        ValuePlan::Decode(ScalarKind::Json)
    } else if str_eq(tag, "NULL") {
        ValuePlan::Null
    } else {
        ValuePlan::Decode(ScalarKind::Text)
    }
}

impl Database for MySql {
    open spec fn json_type(type_tag: Seq<char>) -> bool {
        type_tag == "JSON"@
    }

    open spec fn json_failure(cause: Seq<char>) -> DecodeErrorView {
        ScalarKind::Json.failure(cause)
    }

    open spec fn sequence_type(type_tag: Seq<char>) -> bool {
        false
    }

    open spec fn seq_plan(row: Row, index: usize) -> Result<SeqPlan, DecodeErrorView> {
        Ok(columns_plan(row, index))
    }

    /// An enum hint asks for the tag as text, whatever the type; a boolean
    /// hint, or a type one unit wide, asks for a boolean; any other value
    /// goes by the name of its type.
    open spec fn value_plan(type_tag: Seq<char>, type_detail: Seq<char>, hint: ValueType) -> ValuePlan {
        if hint == ValueType::Enum {
            ValuePlan::Decode(ScalarKind::Enum)
        } else if single_bit(type_detail) || hint == ValueType::Bool {
            ValuePlan::Decode(ScalarKind::Bool)
        } else {
            kind_of(type_tag)
        }
    }

    fn is_json(type_tag: &str) -> (yes: bool) {
        str_eq(type_tag, "JSON")
    }

    fn deserialize_json(outcome: Result<serde_json::Value, String>) -> (result: Result<
        serde_json::Value,
        DecodeError,
    >) {
        match outcome {
            Ok(doc) => Ok(doc),
            Err(cause) => Err(ScalarKind::Json.decode_failure(cause)),
        }
    }

    fn is_sequence(type_tag: &str) -> (yes: bool) {
        false
    }

    fn deserialize_seq<'a>(row_deserializer: RowDeserializer<'a, Self>) -> (result: Result<
        SeqPlan,
        DecodeError,
    >) {
        let num_cols: usize = row_deserializer.row.len();
        Ok(SeqPlan::Columns { start: row_deserializer.index, end: num_cols })
    }

    fn deserialize_value<'a>(deserializer: ValueDeserializer<'a, Self>) -> (plan: ValuePlan) {
        match deserializer.value_type {
            ValueType::Enum => {
                return ValuePlan::Decode(ScalarKind::Enum);
            },
            _ => {},
        }
        let max_size_one: bool = contains(
            deserializer.value.type_detail.as_str(),
            "max_size: Some(1)",
        );
        let as_bool: bool = match deserializer.value_type {
            ValueType::Bool => true,
            _ => false,
        };
        if max_size_one || as_bool {
            return ValuePlan::Decode(ScalarKind::Bool);
        }
        switch(deserializer.value.type_tag.as_str())
    }
}

/// A runtime type that the switch does not list is decoded as text, and the
/// text goes to the consumer unchanged.
pub proof fn unlisted_is_text(type_tag: Seq<char>, type_detail: Seq<char>, text: Seq<char>)
    requires
        !listed(type_tag),
        !single_bit(type_detail),
    ensures
        MySql::value_plan(type_tag, type_detail, ValueType::Any) == ValuePlan::Decode(
            ScalarKind::Text,
        ),
        ScalarKind::Text.visit_of(crate::scalar::DecodedView::Text(text)) == Ok::<
            crate::scalar::VisitView,
            DecodeErrorView,
        >(crate::scalar::VisitView::Text(text)),
{
}

/// An enum hint wins over everything, and a boolean hint or a type one unit
/// wide wins over the name of the type.
pub proof fn hints_come_first(type_tag: Seq<char>, type_detail: Seq<char>, hint: ValueType)
    ensures
        MySql::value_plan(type_tag, type_detail, ValueType::Enum) == ValuePlan::Decode(
            ScalarKind::Enum,
        ),
        MySql::value_plan(type_tag, type_detail, ValueType::Bool) == ValuePlan::Decode(
            ScalarKind::Bool,
        ),
        single_bit(type_detail) && hint != ValueType::Enum ==> MySql::value_plan(
            type_tag,
            type_detail,
            hint,
        ) == ValuePlan::Decode(ScalarKind::Bool),
{
}

/// The switch, name by name: every listed runtime type and what is done
/// with a value of it.
pub proof fn listed_kinds()
    ensures
        kind_of("TINYINT"@) == ValuePlan::Decode(ScalarKind::I8),
        kind_of("TINYINT UNSIGNED"@) == ValuePlan::Decode(ScalarKind::U8),
        kind_of("SMALLINT"@) == ValuePlan::Decode(ScalarKind::I16),
        kind_of("SMALLINT UNSIGNED"@) == ValuePlan::Decode(ScalarKind::U16),
        kind_of("INT"@) == ValuePlan::Decode(ScalarKind::I32),
        kind_of("MEDIUMINT"@) == ValuePlan::Decode(ScalarKind::I32),
        kind_of("YEAR"@) == ValuePlan::Decode(ScalarKind::I32),
        kind_of("INT UNSIGNED"@) == ValuePlan::Decode(ScalarKind::U32),
        kind_of("MEDIUMINT UNSIGNED"@) == ValuePlan::Decode(ScalarKind::U32),
        kind_of("BIGINT"@) == ValuePlan::Decode(ScalarKind::I64),
        kind_of("BIGINT UNSIGNED"@) == ValuePlan::Decode(ScalarKind::U64),
        kind_of("FLOAT"@) == ValuePlan::Decode(ScalarKind::F32),
        kind_of("DOUBLE"@) == ValuePlan::Decode(ScalarKind::F64),
        kind_of("DECIMAL"@) == ValuePlan::Decode(ScalarKind::Decimal),
        kind_of("BOOLEAN"@) == ValuePlan::Decode(ScalarKind::Bool),
        kind_of("CHAR"@) == ValuePlan::Decode(ScalarKind::Text),
        kind_of("VARCHAR"@) == ValuePlan::Decode(ScalarKind::Text),
        kind_of("ENUM"@) == ValuePlan::Decode(ScalarKind::Text),
        kind_of("SET"@) == ValuePlan::Decode(ScalarKind::Text),
        kind_of("TINYTEXT"@) == ValuePlan::Decode(ScalarKind::Text),
        kind_of("TEXT"@) == ValuePlan::Decode(ScalarKind::Text),
        kind_of("MEDIUMTEXT"@) == ValuePlan::Decode(ScalarKind::Text),
        kind_of("LONGTEXT"@) == ValuePlan::Decode(ScalarKind::Text),
        kind_of("BINARY"@) == ValuePlan::Decode(ScalarKind::Bytes),
        kind_of("BIT"@) == ValuePlan::Decode(ScalarKind::Bytes),
        kind_of("TINYBLOB"@) == ValuePlan::Decode(ScalarKind::Bytes),
        kind_of("BLOB"@) == ValuePlan::Decode(ScalarKind::Bytes),
        kind_of("MEDIUMBLOB"@) == ValuePlan::Decode(ScalarKind::Bytes),
        kind_of("LONGBLOB"@) == ValuePlan::Decode(ScalarKind::Bytes),
        kind_of("VARBINARY"@) == ValuePlan::Decode(ScalarKind::Bytes),
        kind_of("DATE"@) == ValuePlan::Decode(ScalarKind::Date),
        kind_of("TIME"@) == ValuePlan::Decode(ScalarKind::Time),
        kind_of("DATETIME"@) == ValuePlan::Decode(ScalarKind::DateTime),
        kind_of("TIMESTAMP"@) == ValuePlan::Decode(ScalarKind::DateTime),
        kind_of("JSON"@) == ValuePlan::Decode(ScalarKind::Json),
        kind_of("NULL"@) == ValuePlan::Null,
{
    reveal_strlit("TINYINT");
    reveal_strlit("TINYINT UNSIGNED");
    reveal_strlit("SMALLINT");
    reveal_strlit("SMALLINT UNSIGNED");
    reveal_strlit("INT");
    reveal_strlit("MEDIUMINT");
    reveal_strlit("YEAR");
    reveal_strlit("INT UNSIGNED");
    reveal_strlit("MEDIUMINT UNSIGNED");
    reveal_strlit("BIGINT");
    reveal_strlit("BIGINT UNSIGNED");
    reveal_strlit("FLOAT");
    reveal_strlit("DOUBLE");
    reveal_strlit("DECIMAL");
    reveal_strlit("BOOLEAN");
    reveal_strlit("CHAR");
    reveal_strlit("VARCHAR");
    reveal_strlit("ENUM");
    reveal_strlit("SET");
    reveal_strlit("TINYTEXT");
    reveal_strlit("TEXT");
    reveal_strlit("MEDIUMTEXT");
    reveal_strlit("LONGTEXT");
    reveal_strlit("BINARY");
    reveal_strlit("BIT");
    reveal_strlit("TINYBLOB");
    reveal_strlit("BLOB");
    reveal_strlit("MEDIUMBLOB");
    reveal_strlit("LONGBLOB");
    reveal_strlit("VARBINARY");
    reveal_strlit("DATE");
    reveal_strlit("TIME");
    reveal_strlit("DATETIME");
    reveal_strlit("TIMESTAMP");
    reveal_strlit("JSON");
    reveal_strlit("NULL");
    assert("TINYINT"@.len() == 7 && "TINYINT"@[0] == 'T' && "TINYINT"@[1] == 'I' && "TINYINT"@[2] == 'N' && "TINYINT"@[3] == 'Y' && "TINYINT"@[4] == 'I' && "TINYINT"@[5] == 'N' && "TINYINT"@[6] == 'T');
    assert("TINYINT UNSIGNED"@.len() == 16 && "TINYINT UNSIGNED"@[0] == 'T' && "TINYINT UNSIGNED"@[1] == 'I' && "TINYINT UNSIGNED"@[2] == 'N' && "TINYINT UNSIGNED"@[3] == 'Y' && "TINYINT UNSIGNED"@[4] == 'I' && "TINYINT UNSIGNED"@[5] == 'N' && "TINYINT UNSIGNED"@[6] == 'T' && "TINYINT UNSIGNED"@[7] == ' ' && "TINYINT UNSIGNED"@[8] == 'U' && "TINYINT UNSIGNED"@[9] == 'N' && "TINYINT UNSIGNED"@[10] == 'S' && "TINYINT UNSIGNED"@[11] == 'I' && "TINYINT UNSIGNED"@[12] == 'G' && "TINYINT UNSIGNED"@[13] == 'N' && "TINYINT UNSIGNED"@[14] == 'E' && "TINYINT UNSIGNED"@[15] == 'D');
    assert("SMALLINT"@.len() == 8 && "SMALLINT"@[0] == 'S' && "SMALLINT"@[1] == 'M' && "SMALLINT"@[2] == 'A' && "SMALLINT"@[3] == 'L' && "SMALLINT"@[4] == 'L' && "SMALLINT"@[5] == 'I' && "SMALLINT"@[6] == 'N' && "SMALLINT"@[7] == 'T');
    assert("SMALLINT UNSIGNED"@.len() == 17 && "SMALLINT UNSIGNED"@[0] == 'S' && "SMALLINT UNSIGNED"@[1] == 'M' && "SMALLINT UNSIGNED"@[2] == 'A' && "SMALLINT UNSIGNED"@[3] == 'L' && "SMALLINT UNSIGNED"@[4] == 'L' && "SMALLINT UNSIGNED"@[5] == 'I' && "SMALLINT UNSIGNED"@[6] == 'N' && "SMALLINT UNSIGNED"@[7] == 'T' && "SMALLINT UNSIGNED"@[8] == ' ' && "SMALLINT UNSIGNED"@[9] == 'U' && "SMALLINT UNSIGNED"@[10] == 'N' && "SMALLINT UNSIGNED"@[11] == 'S' && "SMALLINT UNSIGNED"@[12] == 'I' && "SMALLINT UNSIGNED"@[13] == 'G' && "SMALLINT UNSIGNED"@[14] == 'N' && "SMALLINT UNSIGNED"@[15] == 'E' && "SMALLINT UNSIGNED"@[16] == 'D');
    assert("INT"@.len() == 3 && "INT"@[0] == 'I' && "INT"@[1] == 'N' && "INT"@[2] == 'T');
    assert("MEDIUMINT"@.len() == 9 && "MEDIUMINT"@[0] == 'M' && "MEDIUMINT"@[1] == 'E' && "MEDIUMINT"@[2] == 'D' && "MEDIUMINT"@[3] == 'I' && "MEDIUMINT"@[4] == 'U' && "MEDIUMINT"@[5] == 'M' && "MEDIUMINT"@[6] == 'I' && "MEDIUMINT"@[7] == 'N' && "MEDIUMINT"@[8] == 'T');
    assert("YEAR"@.len() == 4 && "YEAR"@[0] == 'Y' && "YEAR"@[1] == 'E' && "YEAR"@[2] == 'A' && "YEAR"@[3] == 'R');
    assert("INT UNSIGNED"@.len() == 12 && "INT UNSIGNED"@[0] == 'I' && "INT UNSIGNED"@[1] == 'N' && "INT UNSIGNED"@[2] == 'T' && "INT UNSIGNED"@[3] == ' ' && "INT UNSIGNED"@[4] == 'U' && "INT UNSIGNED"@[5] == 'N' && "INT UNSIGNED"@[6] == 'S' && "INT UNSIGNED"@[7] == 'I' && "INT UNSIGNED"@[8] == 'G' && "INT UNSIGNED"@[9] == 'N' && "INT UNSIGNED"@[10] == 'E' && "INT UNSIGNED"@[11] == 'D');
    assert("MEDIUMINT UNSIGNED"@.len() == 18 && "MEDIUMINT UNSIGNED"@[0] == 'M' && "MEDIUMINT UNSIGNED"@[1] == 'E' && "MEDIUMINT UNSIGNED"@[2] == 'D' && "MEDIUMINT UNSIGNED"@[3] == 'I' && "MEDIUMINT UNSIGNED"@[4] == 'U' && "MEDIUMINT UNSIGNED"@[5] == 'M' && "MEDIUMINT UNSIGNED"@[6] == 'I' && "MEDIUMINT UNSIGNED"@[7] == 'N' && "MEDIUMINT UNSIGNED"@[8] == 'T' && "MEDIUMINT UNSIGNED"@[9] == ' ' && "MEDIUMINT UNSIGNED"@[10] == 'U' && "MEDIUMINT UNSIGNED"@[11] == 'N' && "MEDIUMINT UNSIGNED"@[12] == 'S' && "MEDIUMINT UNSIGNED"@[13] == 'I' && "MEDIUMINT UNSIGNED"@[14] == 'G' && "MEDIUMINT UNSIGNED"@[15] == 'N' && "MEDIUMINT UNSIGNED"@[16] == 'E' && "MEDIUMINT UNSIGNED"@[17] == 'D');
    assert("BIGINT"@.len() == 6 && "BIGINT"@[0] == 'B' && "BIGINT"@[1] == 'I' && "BIGINT"@[2] == 'G' && "BIGINT"@[3] == 'I' && "BIGINT"@[4] == 'N' && "BIGINT"@[5] == 'T');
    assert("BIGINT UNSIGNED"@.len() == 15 && "BIGINT UNSIGNED"@[0] == 'B' && "BIGINT UNSIGNED"@[1] == 'I' && "BIGINT UNSIGNED"@[2] == 'G' && "BIGINT UNSIGNED"@[3] == 'I' && "BIGINT UNSIGNED"@[4] == 'N' && "BIGINT UNSIGNED"@[5] == 'T' && "BIGINT UNSIGNED"@[6] == ' ' && "BIGINT UNSIGNED"@[7] == 'U' && "BIGINT UNSIGNED"@[8] == 'N' && "BIGINT UNSIGNED"@[9] == 'S' && "BIGINT UNSIGNED"@[10] == 'I' && "BIGINT UNSIGNED"@[11] == 'G' && "BIGINT UNSIGNED"@[12] == 'N' && "BIGINT UNSIGNED"@[13] == 'E' && "BIGINT UNSIGNED"@[14] == 'D');
    assert("FLOAT"@.len() == 5 && "FLOAT"@[0] == 'F' && "FLOAT"@[1] == 'L' && "FLOAT"@[2] == 'O' && "FLOAT"@[3] == 'A' && "FLOAT"@[4] == 'T');
    assert("DOUBLE"@.len() == 6 && "DOUBLE"@[0] == 'D' && "DOUBLE"@[1] == 'O' && "DOUBLE"@[2] == 'U' && "DOUBLE"@[3] == 'B' && "DOUBLE"@[4] == 'L' && "DOUBLE"@[5] == 'E');
    assert("DECIMAL"@.len() == 7 && "DECIMAL"@[0] == 'D' && "DECIMAL"@[1] == 'E' && "DECIMAL"@[2] == 'C' && "DECIMAL"@[3] == 'I' && "DECIMAL"@[4] == 'M' && "DECIMAL"@[5] == 'A' && "DECIMAL"@[6] == 'L');
    assert("BOOLEAN"@.len() == 7 && "BOOLEAN"@[0] == 'B' && "BOOLEAN"@[1] == 'O' && "BOOLEAN"@[2] == 'O' && "BOOLEAN"@[3] == 'L' && "BOOLEAN"@[4] == 'E' && "BOOLEAN"@[5] == 'A' && "BOOLEAN"@[6] == 'N');
    assert("CHAR"@.len() == 4 && "CHAR"@[0] == 'C' && "CHAR"@[1] == 'H' && "CHAR"@[2] == 'A' && "CHAR"@[3] == 'R');
    assert("VARCHAR"@.len() == 7 && "VARCHAR"@[0] == 'V' && "VARCHAR"@[1] == 'A' && "VARCHAR"@[2] == 'R' && "VARCHAR"@[3] == 'C' && "VARCHAR"@[4] == 'H' && "VARCHAR"@[5] == 'A' && "VARCHAR"@[6] == 'R');
    assert("ENUM"@.len() == 4 && "ENUM"@[0] == 'E' && "ENUM"@[1] == 'N' && "ENUM"@[2] == 'U' && "ENUM"@[3] == 'M');
    assert("SET"@.len() == 3 && "SET"@[0] == 'S' && "SET"@[1] == 'E' && "SET"@[2] == 'T');
    assert("TINYTEXT"@.len() == 8 && "TINYTEXT"@[0] == 'T' && "TINYTEXT"@[1] == 'I' && "TINYTEXT"@[2] == 'N' && "TINYTEXT"@[3] == 'Y' && "TINYTEXT"@[4] == 'T' && "TINYTEXT"@[5] == 'E' && "TINYTEXT"@[6] == 'X' && "TINYTEXT"@[7] == 'T');
    assert("TEXT"@.len() == 4 && "TEXT"@[0] == 'T' && "TEXT"@[1] == 'E' && "TEXT"@[2] == 'X' && "TEXT"@[3] == 'T');
    assert("MEDIUMTEXT"@.len() == 10 && "MEDIUMTEXT"@[0] == 'M' && "MEDIUMTEXT"@[1] == 'E' && "MEDIUMTEXT"@[2] == 'D' && "MEDIUMTEXT"@[3] == 'I' && "MEDIUMTEXT"@[4] == 'U' && "MEDIUMTEXT"@[5] == 'M' && "MEDIUMTEXT"@[6] == 'T' && "MEDIUMTEXT"@[7] == 'E' && "MEDIUMTEXT"@[8] == 'X' && "MEDIUMTEXT"@[9] == 'T');
    assert("LONGTEXT"@.len() == 8 && "LONGTEXT"@[0] == 'L' && "LONGTEXT"@[1] == 'O' && "LONGTEXT"@[2] == 'N' && "LONGTEXT"@[3] == 'G' && "LONGTEXT"@[4] == 'T' && "LONGTEXT"@[5] == 'E' && "LONGTEXT"@[6] == 'X' && "LONGTEXT"@[7] == 'T');
    assert("BINARY"@.len() == 6 && "BINARY"@[0] == 'B' && "BINARY"@[1] == 'I' && "BINARY"@[2] == 'N' && "BINARY"@[3] == 'A' && "BINARY"@[4] == 'R' && "BINARY"@[5] == 'Y');
    assert("BIT"@.len() == 3 && "BIT"@[0] == 'B' && "BIT"@[1] == 'I' && "BIT"@[2] == 'T');
    assert("TINYBLOB"@.len() == 8 && "TINYBLOB"@[0] == 'T' && "TINYBLOB"@[1] == 'I' && "TINYBLOB"@[2] == 'N' && "TINYBLOB"@[3] == 'Y' && "TINYBLOB"@[4] == 'B' && "TINYBLOB"@[5] == 'L' && "TINYBLOB"@[6] == 'O' && "TINYBLOB"@[7] == 'B');
    assert("BLOB"@.len() == 4 && "BLOB"@[0] == 'B' && "BLOB"@[1] == 'L' && "BLOB"@[2] == 'O' && "BLOB"@[3] == 'B');
    assert("MEDIUMBLOB"@.len() == 10 && "MEDIUMBLOB"@[0] == 'M' && "MEDIUMBLOB"@[1] == 'E' && "MEDIUMBLOB"@[2] == 'D' && "MEDIUMBLOB"@[3] == 'I' && "MEDIUMBLOB"@[4] == 'U' && "MEDIUMBLOB"@[5] == 'M' && "MEDIUMBLOB"@[6] == 'B' && "MEDIUMBLOB"@[7] == 'L' && "MEDIUMBLOB"@[8] == 'O' && "MEDIUMBLOB"@[9] == 'B');
    assert("LONGBLOB"@.len() == 8 && "LONGBLOB"@[0] == 'L' && "LONGBLOB"@[1] == 'O' && "LONGBLOB"@[2] == 'N' && "LONGBLOB"@[3] == 'G' && "LONGBLOB"@[4] == 'B' && "LONGBLOB"@[5] == 'L' && "LONGBLOB"@[6] == 'O' && "LONGBLOB"@[7] == 'B');
    assert("VARBINARY"@.len() == 9 && "VARBINARY"@[0] == 'V' && "VARBINARY"@[1] == 'A' && "VARBINARY"@[2] == 'R' && "VARBINARY"@[3] == 'B' && "VARBINARY"@[4] == 'I' && "VARBINARY"@[5] == 'N' && "VARBINARY"@[6] == 'A' && "VARBINARY"@[7] == 'R' && "VARBINARY"@[8] == 'Y');
    assert("DATE"@.len() == 4 && "DATE"@[0] == 'D' && "DATE"@[1] == 'A' && "DATE"@[2] == 'T' && "DATE"@[3] == 'E');
    assert("TIME"@.len() == 4 && "TIME"@[0] == 'T' && "TIME"@[1] == 'I' && "TIME"@[2] == 'M' && "TIME"@[3] == 'E');
    assert("DATETIME"@.len() == 8 && "DATETIME"@[0] == 'D' && "DATETIME"@[1] == 'A' && "DATETIME"@[2] == 'T' && "DATETIME"@[3] == 'E' && "DATETIME"@[4] == 'T' && "DATETIME"@[5] == 'I' && "DATETIME"@[6] == 'M' && "DATETIME"@[7] == 'E');
    assert("TIMESTAMP"@.len() == 9 && "TIMESTAMP"@[0] == 'T' && "TIMESTAMP"@[1] == 'I' && "TIMESTAMP"@[2] == 'M' && "TIMESTAMP"@[3] == 'E' && "TIMESTAMP"@[4] == 'S' && "TIMESTAMP"@[5] == 'T' && "TIMESTAMP"@[6] == 'A' && "TIMESTAMP"@[7] == 'M' && "TIMESTAMP"@[8] == 'P');
    assert("JSON"@.len() == 4 && "JSON"@[0] == 'J' && "JSON"@[1] == 'S' && "JSON"@[2] == 'O' && "JSON"@[3] == 'N');
    assert("NULL"@.len() == 4 && "NULL"@[0] == 'N' && "NULL"@[1] == 'U' && "NULL"@[2] == 'L' && "NULL"@[3] == 'L');
}

} // verus!
