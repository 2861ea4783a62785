//! What a database backend contributes to the dispatch: which runtime types
//! carry JSON or arrays, and which decode each type name asks for.

use vstd::prelude::*;
use crate::deserializers::RowDeserializer;
use crate::deserializers::ValueDeserializer;
use crate::deserializers::ValueType;
use crate::error::DecodeError;
use crate::error::DecodeErrorView;
use crate::row::Row;
use crate::scalar::ScalarKind;

pub mod mysql;
pub mod postgres;

verus! {

/// What is done with one value that is not null.
#[derive(Debug, Clone, Copy, PartialEq, Eq, Structural)]
pub enum ValuePlan {
    /// Nothing is decoded: the consumer is told that there is no value.
    Null,
    /// The value is decoded to the kind's representation and handed on as
    /// `ScalarKind::visit_of` says.
    Decode(ScalarKind),
}

/// The element type of a native array column: the kind that each element
/// that is not null is decoded to and handed on as.
#[derive(Debug, Clone, Copy, PartialEq, Eq, Structural)]
pub struct ArrayKind {
    pub element: ScalarKind,
}

/// How a row is walked as a sequence.
#[derive(Debug, Clone, Copy, PartialEq, Eq, Structural)]
pub enum SeqPlan {
    /// The column is a native array: it is decoded to its elements, each of
    /// which may be null, and they are the sequence, in the array's order.
    Array { column: usize, kind: ArrayKind },
    /// The columns from `start` up to `end` are the sequence, one element
    /// each.
    Columns { start: usize, end: usize },
}

/// The view of what planning a sequence returns.
pub open spec fn seq_view(result: Result<SeqPlan, DecodeError>) -> Result<
    SeqPlan,
    DecodeErrorView,
> {
    match result {
        Ok(plan) => Ok(plan),
        Err(error) => Err(error@),
    }
}

/// The view of what mapping the outcome of a JSON decode returns.
pub open spec fn json_view(result: Result<serde_json::Value, DecodeError>) -> Result<
    serde_json::Value,
    DecodeErrorView,
> {
    match result {
        Ok(doc) => Ok(doc),
        Err(error) => Err(error@),
    }
}

/// The cause that a failed decode reports; no text for a decode that did
/// not fail.
pub open spec fn cause_of(outcome: Result<serde_json::Value, String>) -> Seq<char> {
    match outcome {
        Ok(_) => Seq::empty(),
        Err(cause) => cause@,
    }
}

/// What becomes of the outcome of decoding a JSON column: the document
/// itself, or `failure` where the decode failed.
pub open spec fn json_outcome(
    outcome: Result<serde_json::Value, String>,
    failure: DecodeErrorView,
) -> Result<serde_json::Value, DecodeErrorView> {
    match outcome {
        Ok(doc) => Ok(doc),
        Err(_) => Err(failure),
    }
}

/// The sequence over all columns from the cursor on.
pub open spec fn columns_plan(row: Row, index: usize) -> SeqPlan {
    SeqPlan::Columns { start: index, end: row.columns@.len() as usize }
}

/// The capabilities of one database backend.
pub trait Database: Sized {
    /// Whether columns of this runtime type carry JSON.
    spec fn json_type(type_tag: Seq<char>) -> bool;

    /// The error for a JSON column that could not be decoded.
    spec fn json_failure(cause: Seq<char>) -> DecodeErrorView;

    /// Whether columns of this runtime type are native arrays.
    spec fn sequence_type(type_tag: Seq<char>) -> bool;

    /// How the row is walked as a sequence, from the cursor on.
    spec fn seq_plan(row: Row, index: usize) -> Result<SeqPlan, DecodeErrorView>;

    /// What is done with a value of this runtime type under a hint.
    spec fn value_plan(type_tag: Seq<char>, type_detail: Seq<char>, hint: ValueType) -> ValuePlan;

    /// Whether columns of this runtime type carry JSON.
    fn is_json(type_tag: &str) -> (yes: bool)
        ensures
            yes == Self::json_type(type_tag@),
    ;

    /// The document of a JSON column from the outcome of its decode: the
    /// document itself, or the backend's error for the cause.
    fn deserialize_json(outcome: Result<serde_json::Value, String>) -> (result: Result<
        serde_json::Value,
        DecodeError,
    >)
        ensures
            json_view(result) == json_outcome(outcome, Self::json_failure(cause_of(outcome))),
    ;

    /// Whether columns of this runtime type are native arrays.
    fn is_sequence(type_tag: &str) -> (yes: bool)
        ensures
            yes == Self::sequence_type(type_tag@),
    ;

    /// How the row is walked as a sequence, from the cursor on.
    fn deserialize_seq<'a>(row_deserializer: RowDeserializer<'a, Self>) -> (result: Result<
        SeqPlan,
        DecodeError,
    >)
        ensures
            seq_view(result) == Self::seq_plan(*row_deserializer.row, row_deserializer.index),
    ;

    /// What is done with a value that is not null: the switch on the name of
    /// its runtime type.
    fn deserialize_value<'a>(deserializer: ValueDeserializer<'a, Self>) -> (plan: ValuePlan)
        ensures
            plan == Self::value_plan(
                deserializer.value.type_tag@,
                deserializer.value.type_detail@,
                deserializer.value_type,
            ),
    ;
}

} // verus!
