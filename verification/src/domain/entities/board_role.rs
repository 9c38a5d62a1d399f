//! The roles a user can hold on a board.
use vstd::prelude::*;

verus! {

/// A member's role: an Owner manages members, an Editor changes the board's
/// content, a Viewer only reads it.
#[derive(Debug, PartialEq, Eq, Clone, Copy, Structural)]
pub enum BoardRole {
    Owner,
    Viewer,
    Editor,
}

} // verus!
