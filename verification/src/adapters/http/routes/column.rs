//! Payloads of the column routes.
use vstd::prelude::*;
use crate::domain::entities::column_type::ColumnType;

verus! {

/// A request for a new column at `target_index`.
#[derive(Debug)]
pub struct CreateColumnPayload {
    pub name: String,
    pub kind: ColumnType,
    pub target_index: usize,
}

/// A request to rename a column and set its kind.
#[derive(Debug)]
pub struct UpdateColumnPayload {
    pub name: String,
    pub kind: ColumnType,
}

/// A request to move a column to `target_index`.
#[derive(Debug, Clone, Copy)]
pub struct MoveColumnPayload {
    pub target_index: usize,
}

} // verus!
