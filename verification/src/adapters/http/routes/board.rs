//! Payloads of the board routes.
use vstd::prelude::*;
use crate::domain::entities::board_role::BoardRole;

verus! {

/// A request for a new board.
#[derive(Debug)]
pub struct CreateBoardPayload {
    pub title: String,
    pub description: String,
}

/// A request for another role.
#[derive(Debug, Clone, Copy)]
pub struct ChangeRolePayload {
    pub role: BoardRole,
}

} // verus!
