//! Boards and their members as the database stores them.
use vstd::prelude::*;
use vstd::std_specs::convert::FromSpecImpl;
use crate::domain::entities::board::Board;
use crate::domain::entities::board_member::BoardMember;
use crate::domain::entities::board_role::BoardRole;

verus! {

/// A role, as stored.
#[derive(Debug, Clone, Copy, PartialEq, Eq, Structural)]
pub enum BoardRoleDb {
    Owner,
    Editor,
    Viewer,
}

/// A membership row.
#[derive(Debug, Clone, Copy, PartialEq, Eq)]
pub struct BoardMemberDb {
    pub id: u128,
    pub user_id: u128,
    pub role: BoardRoleDb,
}

/// A board row with its memberships.
#[derive(Debug)]
pub struct BoardDb {
    pub id: u128,
    pub owner_id: u128,
    pub title: String,
    pub description: String,
    pub members: Vec<BoardMemberDb>,
}

/// The role that a stored role stands for.
pub open spec fn role_from_db(r: BoardRoleDb) -> BoardRole {
    match r {
        BoardRoleDb::Owner => BoardRole::Owner,
        BoardRoleDb::Editor => BoardRole::Editor,
        BoardRoleDb::Viewer => BoardRole::Viewer,
    }
}

/// The stored form of a role.
pub open spec fn role_db(r: BoardRole) -> BoardRoleDb {
    match r {
        BoardRole::Owner => BoardRoleDb::Owner,
        BoardRole::Editor => BoardRoleDb::Editor,
        BoardRole::Viewer => BoardRoleDb::Viewer,
    }
}

/// The membership that a stored membership stands for.
pub open spec fn member_from_db(m: BoardMemberDb) -> BoardMember {
    BoardMember { id: m.id, user_id: m.user_id, role: role_from_db(m.role) }
}

impl From<BoardRoleDb> for BoardRole {
    fn from(value: BoardRoleDb) -> (r: Self) {
        match value {
            BoardRoleDb::Owner => BoardRole::Owner,
            BoardRoleDb::Editor => BoardRole::Editor,
            BoardRoleDb::Viewer => BoardRole::Viewer,
        }
    }
}

impl FromSpecImpl<BoardRoleDb> for BoardRole {
    open spec fn obeys_from_spec() -> bool {
        true
    }

    open spec fn from_spec(v: BoardRoleDb) -> Self {
        role_from_db(v)
    }
}

impl From<BoardRole> for BoardRoleDb {
    fn from(value: BoardRole) -> (r: Self) {
        match value {
            BoardRole::Owner => BoardRoleDb::Owner,
            BoardRole::Editor => BoardRoleDb::Editor,
            BoardRole::Viewer => BoardRoleDb::Viewer,
        }
    }
}

impl FromSpecImpl<BoardRole> for BoardRoleDb {
    open spec fn obeys_from_spec() -> bool {
        true
    }

    open spec fn from_spec(v: BoardRole) -> Self {
        role_db(v)
    }
}

impl From<BoardMemberDb> for BoardMember {
    fn from(value: BoardMemberDb) -> (r: Self) {
        Self { id: value.id, user_id: value.user_id, role: BoardRole::from(value.role) }
    }
}

impl FromSpecImpl<BoardMemberDb> for BoardMember {
    open spec fn obeys_from_spec() -> bool {
        true
    }

    open spec fn from_spec(v: BoardMemberDb) -> Self {
        member_from_db(v)
    }
}

/// The board that a stored board stands for, with its memberships in their
/// stored order.
pub fn board_from_db(value: BoardDb) -> (b: Board)
    ensures
        b.id == value.id,
        b.title == value.title,
        b.description == value.description,
        b.owner_id == value.owner_id,
        b.members@ == value.members@.map_values(|m: BoardMemberDb| member_from_db(m)),
{
    let mut members: Vec<BoardMember> = Vec::new();
    let mut i: usize = 0;
    while i < value.members.len()
        invariant
            0 <= i <= value.members@.len(),
            members@ == value.members@.take(i as int).map_values(|m: BoardMemberDb| member_from_db(m)),
        decreases value.members@.len() - i,
    {
        let m = BoardMember::from(value.members[i]);
        proof {
            assert(value.members@.take(i + 1).map_values(|m: BoardMemberDb| member_from_db(m))
                =~= value.members@.take(i as int).map_values(|m: BoardMemberDb| member_from_db(m)).push(
                member_from_db(value.members@[i as int]),
            ));
        }
        members.push(m);
        i = i + 1;
    }
    proof {
        assert(value.members@.take(i as int) =~= value.members@);
    }
    Board {
        id: value.id,
        title: value.title,
        description: value.description,
        owner_id: value.owner_id,
        members,
    }
}

/// A role read back from how it was stored is the role it was.
pub proof fn law_role_round_trip(r: BoardRole)
    ensures
        role_from_db(role_db(r)) == r,
{
}

} // verus!
