//! The kinds of board columns.
use vstd::prelude::*;

verus! {

/// What a column is for. A To Do or WIP column may limit how many items it
/// holds; a Done column marks its items as finished.
#[derive(Debug, PartialEq, Eq, Clone, Copy, Structural)]
pub enum ColumnType {
    Todo { limit: Option<usize> },
    Wip { limit: Option<usize> },
    Done,
}

} // verus!
