//! A user's membership of a board.
use vstd::prelude::*;
use crate::domain::entities::board_role::BoardRole;
use crate::ids::new_uuid;

verus! {

/// One user's membership of a board, with the role it gives.
#[derive(Debug, Clone, Copy)]
pub struct BoardMember {
    pub id: u128,
    pub user_id: u128,
    pub role: BoardRole,
}

/// A role that lets its holder change the board: Owner or Editor.
pub open spec fn role_can_edit(role: BoardRole) -> bool {
    role == BoardRole::Owner || role == BoardRole::Editor
}

/// A role that lets its holder read the board: every role.
pub open spec fn role_can_view(role: BoardRole) -> bool {
    role == BoardRole::Owner || role == BoardRole::Editor || role == BoardRole::Viewer
}

impl BoardMember {
    /// A new membership of `user_id` with `role`, under a fresh id.
    pub fn new(user_id: u128, role: BoardRole) -> (m: Self)
        ensures
            m.user_id == user_id,
            m.role == role,
    {
        Self { id: new_uuid(), user_id, role }
    }

    pub fn can_edit_board(&self) -> (r: bool)
        ensures
            r == role_can_edit(self.role),
    {
        self.role == BoardRole::Owner || self.role == BoardRole::Editor
    }

    pub fn can_view_board(&self) -> (r: bool)
        ensures
            r == role_can_view(self.role),
    {
        self.role == BoardRole::Owner || self.role == BoardRole::Editor || self.role
            == BoardRole::Viewer
    }

    pub fn is_owner(&self) -> (r: bool)
        ensures
            r == (self.role == BoardRole::Owner),
    {
        self.role == BoardRole::Owner
    }
}

} // verus!
