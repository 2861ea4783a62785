//! Decides how one row of a relational query result is turned into typed
//! values: which decode a column needs, what the consumer is handed, and how
//! a row is walked as a sequence, a map or a record.

pub mod databases;
pub mod deserializers;
pub mod error;
pub mod json;
pub mod map_access;
pub mod row;
pub mod scalar;
pub mod seq_access;
pub mod temporal;
pub mod text;

use vstd::prelude::*;
use crate::databases::postgres::Postgres;
use crate::databases::Database;
use crate::deserializers::row_view;
use crate::deserializers::RowDeserializer;
use crate::deserializers::RowPlan;
use crate::deserializers::Shape;
use crate::error::DecodeError;
use crate::row::Row;

verus! {

/// What is done with `row`, read from its first column on, for a target of
/// the requested shape.
pub fn from_row<DB: Database>(row: &Row, shape: Shape) -> (result: Result<RowPlan, DecodeError>)
    ensures
        row_view(result) == RowDeserializer::<DB>::at_start(row).row_plan(shape),
{
    let deserializer: RowDeserializer<'_, DB> = RowDeserializer::new(row);
    deserializer.dispatch(shape)
}

/// `from_row` for PostgreSQL; `from_row` itself takes any backend.
pub fn from_pg_row(row: &Row, shape: Shape) -> (result: Result<RowPlan, DecodeError>)
    ensures
        row_view(result) == RowDeserializer::<Postgres>::at_start(row).row_plan(shape),
{
    from_row::<Postgres>(row, shape)
}

} // verus!
