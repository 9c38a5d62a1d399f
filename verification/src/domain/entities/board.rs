//! A board, its members and the rules that govern them.
use vstd::prelude::*;
use crate::domain::domain_error::{DomainError, DomainResult, is_static_error};
use crate::domain::entities::board_column::BoardColumn;
use crate::domain::entities::board_member::{BoardMember, role_can_edit, role_can_view};
use crate::domain::entities::board_role::BoardRole;
use crate::domain::entities::column_type::ColumnType;
use crate::ids::new_uuid;

verus! {

/// The most members a board takes.
pub const MAX_MEMBERS: usize = 1000;

/// A board: its owner and its members with their roles.
#[derive(Debug)]
pub struct Board {
    pub id: u128,
    pub title: String,
    pub description: String,
    pub owner_id: u128,
    pub members: Vec<BoardMember>,
}

/// Some member of `ms` is the user `u`.
pub open spec fn has_member(ms: Seq<BoardMember>, u: u128) -> bool {
    exists|i: int| 0 <= i < ms.len() && #[trigger] ms[i].user_id == u
}

/// Some member of `ms` is the user `u` with the role Owner.
pub open spec fn has_owner_member(ms: Seq<BoardMember>, u: u128) -> bool {
    exists|i: int| 0 <= i < ms.len() && #[trigger] ms[i].user_id == u && ms[i].role == BoardRole::Owner
}

/// `i` is the first position of `ms` that holds the user `u`.
pub open spec fn is_first_index(ms: Seq<BoardMember>, u: u128, i: int) -> bool {
    &&& 0 <= i < ms.len()
    &&& ms[i].user_id == u
    &&& forall|j: int| 0 <= j < i ==> #[trigger] ms[j].user_id != u
}

/// How many members of `ms` have the role Owner.
pub open spec fn owner_count(ms: Seq<BoardMember>) -> nat
    decreases ms.len(),
{
    if ms.len() == 0 {
        0
    } else {
        owner_count(ms.drop_last()) + if ms.last().role == BoardRole::Owner {
            1nat
        } else {
            0nat
        }
    }
}

/// `a` and `b` differ at most in their members.
pub open spec fn same_board_header(a: Board, b: Board) -> bool {
    &&& a.id == b.id
    &&& a.title == b.title
    &&& a.description == b.description
    &&& a.owner_id == b.owner_id
}

pub open spec fn msg_add_needs_owner() -> Seq<char> {
    "Must be Owner to add members to a board"@
}

pub open spec fn msg_already_member() -> Seq<char> {
    "User already is a member of this board"@
}

pub open spec fn msg_change_needs_owner() -> Seq<char> {
    "Must be Owner of this board to change a members role"@
}

pub open spec fn msg_remove_needs_owner() -> Seq<char> {
    "Must be Owner of this board to delete a member on this board"@
}

pub open spec fn msg_last_owner() -> Seq<char> {
    "Cannot leave board without owner"@
}

pub open spec fn msg_not_member() -> Seq<char> {
    "User is not a member of this board"@
}

/// `b` and `cols` are a new board titled `title` with `description`, owned
/// by `owner_id`, whose one member is its owner with the role Owner, and its
/// three default columns: "To Do" without limit, "In Progress" (WIP, at most
/// 5 items) and "Done", in that order.
pub open spec fn made_with_defaults(
    title: String,
    description: String,
    owner_id: u128,
    b: Board,
    cols: Seq<BoardColumn>,
) -> bool {
    &&& b.title == title
    &&& b.description == description
    &&& b.owner_id == owner_id
    &&& b.members@.len() == 1
    &&& b.members@[0].user_id == owner_id
    &&& b.members@[0].role == BoardRole::Owner
    &&& cols.len() == 3
    &&& forall|i: int| 0 <= i < 3 ==> #[trigger] cols[i].board_id == b.id && cols[i].order_index == i
    &&& cols[0].name@ == "To Do"@
    &&& cols[0].kind == (ColumnType::Todo { limit: None })
    &&& cols[1].name@ == "In Progress"@
    &&& cols[1].kind == (ColumnType::Wip { limit: Some(5) })
    &&& cols[2].name@ == "Done"@
    &&& cols[2].kind == ColumnType::Done
}

impl Board {
    /// `u` may manage the board's members: it is the board's owner or an
    /// Owner member.
    pub open spec fn spec_is_owner(&self, u: u128) -> bool {
        self.owner_id == u || has_owner_member(self.members@, u)
    }

    /// `u` is a member whose role lets it change the board.
    pub open spec fn spec_can_edit(&self, u: u128) -> bool {
        exists|i: int|
            0 <= i < self.members@.len() && #[trigger] self.members@[i].user_id == u
                && role_can_edit(self.members@[i].role)
    }

    /// `u` is a member whose role lets it read the board.
    pub open spec fn spec_can_view(&self, u: u128) -> bool {
        exists|i: int|
            0 <= i < self.members@.len() && #[trigger] self.members@[i].user_id == u
                && role_can_view(self.members@[i].role)
    }

    /// What `add_member` does: from `pre` to `post` with result `r`.
    pub open spec fn add_member_post(
        pre: Board,
        post: Board,
        action_user: u128,
        member: BoardMember,
        r: DomainResult<()>,
    ) -> bool {
        if pre.members@.len() >= MAX_MEMBERS {
            r == Err::<(), DomainError>(DomainError::BoardMemberLimitExceeded) && post == pre
        } else if !pre.spec_is_owner(action_user) {
            (r matches Err(e) && is_static_error(e, msg_add_needs_owner())) && post == pre
        } else if has_member(pre.members@, member.user_id) {
            (r matches Err(e) && is_static_error(e, msg_already_member())) && post == pre
        } else {
            &&& r == Ok::<(), DomainError>(())
            &&& post.members@ == pre.members@.push(member)
            &&& same_board_header(post, pre)
        }
    }

    /// The guard against leaving a board without owner stops a change of
    /// `target`'s role to `new_role`: the target is the board's owner, the
    /// new role is not Owner, and at most one member is an Owner.
    pub open spec fn role_change_blocked(pre: Board, target: u128, new_role: BoardRole) -> bool {
        new_role != BoardRole::Owner && target == pre.owner_id && owner_count(pre.members@) <= 1
    }

    /// What `change_member_role` does.
    pub open spec fn change_member_role_post(
        pre: Board,
        post: Board,
        action_user: u128,
        target: u128,
        new_role: BoardRole,
        r: DomainResult<BoardMember>,
    ) -> bool {
        if !pre.spec_is_owner(action_user) {
            (r matches Err(e) && is_static_error(e, msg_change_needs_owner())) && post == pre
        } else if Board::role_change_blocked(pre, target, new_role) {
            (r matches Err(e) && is_static_error(e, msg_last_owner())) && post == pre
        } else if !has_member(pre.members@, target) {
            r == Err::<BoardMember, DomainError>(DomainError::MemberNotFound(target)) && post == pre
        } else {
            exists|i: int|
                #![trigger is_first_index(pre.members@, target, i)]
                is_first_index(pre.members@, target, i) && {
                    let changed = BoardMember { role: new_role, ..pre.members@[i] };
                    &&& r == Ok::<BoardMember, DomainError>(changed)
                    &&& post.members@ == pre.members@.update(i, changed)
                    &&& same_board_header(post, pre)
                }
        }
    }

    /// `target` counts as an owner when removed: it is the board's owner or
    /// an Owner member.
    pub open spec fn removal_target_is_owner(pre: Board, target: u128) -> bool {
        target == pre.owner_id || has_owner_member(pre.members@, target)
    }

    /// What `remove_member` does.
    pub open spec fn remove_member_post(
        pre: Board,
        post: Board,
        action_user: u128,
        target: u128,
        r: DomainResult<BoardMember>,
    ) -> bool {
        if !pre.spec_is_owner(action_user) {
            (r matches Err(e) && is_static_error(e, msg_remove_needs_owner())) && post == pre
        } else if Board::removal_target_is_owner(pre, target) && owner_count(pre.members@) <= 1 {
            (r matches Err(e) && is_static_error(e, msg_last_owner())) && post == pre
        } else if !has_member(pre.members@, target) {
            (r matches Err(e) && is_static_error(e, msg_not_member())) && post == pre
        } else {
            exists|i: int|
                #![trigger is_first_index(pre.members@, target, i)]
                is_first_index(pre.members@, target, i) && {
                    &&& r == Ok::<BoardMember, DomainError>(pre.members@[i])
                    &&& post.members@ == pre.members@.remove(i)
                    &&& same_board_header(post, pre)
                }
        }
    }

    /// A new board owned by `owner_id`, without members, under a fresh id.
    pub fn new(title: String, description: String, owner_id: u128) -> (b: Self)
        ensures
            b.title == title,
            b.description == description,
            b.owner_id == owner_id,
            b.members@.len() == 0,
    {
        Self { id: new_uuid(), title, description, owner_id, members: Vec::new() }
    }

    /// A new board whose one member is its owner, with the role Owner, and its
    /// three default columns: "To Do" without limit, "In Progress" (WIP, at
    /// most 5 items) and "Done", in that order.
    pub fn create_with_defaults(title: String, description: String, owner_id: u128) -> (r: (
        Self,
        Vec<BoardColumn>,
    ))
        ensures
            made_with_defaults(title, description, owner_id, r.0, r.1@),
    {
        let mut board = Self::new(title, description, owner_id);
        let owner_member = BoardMember::new(owner_id, BoardRole::Owner);
        let _ = board.add_member(owner_id, owner_member);
        let default_columns = vec![
            BoardColumn::new(board.id, "To Do".to_string(), ColumnType::Todo { limit: None }, 0),
            BoardColumn::new(board.id, "In Progress".to_string(), ColumnType::Wip { limit: Some(5) }, 1),
            BoardColumn::new(board.id, "Done".to_string(), ColumnType::Done, 2),
        ];
        (board, default_columns)
    }

    /// Adds `member` on behalf of `action_user`: refused when the board is
    /// full, when `action_user` may not manage members, and when the user is
    /// a member already.
    pub fn add_member(&mut self, action_user: u128, member: BoardMember) -> (r: DomainResult<()>)
        ensures
            Board::add_member_post(*old(self), *final(self), action_user, member, r),
    {
        if self.members.len() >= MAX_MEMBERS {
            return Err(DomainError::BoardMemberLimitExceeded);
        }
        if !self.is_owner(action_user) {
            return Err(DomainError::Static("Must be Owner to add members to a board"));
        }
        if position_of_user(&self.members, member.user_id).is_some() {
            return Err(DomainError::Static("User already is a member of this board"));
        }
        self.members.push(member);
        Ok(())
    }

    /// Gives `target_user` the role `new_role` on behalf of `action_user`,
    /// and returns the changed membership.
    pub fn change_member_role(
        &mut self,
        action_user: u128,
        target_user: u128,
        new_role: BoardRole,
    ) -> (r: DomainResult<BoardMember>)
        ensures
            Board::change_member_role_post(
                *old(self),
                *final(self),
                action_user,
                target_user,
                new_role,
                r,
            ),
    {
        if !self.is_owner(action_user) {
            return Err(DomainError::Static("Must be Owner of this board to change a members role"));
        }
        if new_role != BoardRole::Owner {
            let target_is_owner = target_user == self.owner_id || self.any_member_is_both(
                target_user,
                self.owner_id,
            );
            if target_is_owner {
                self.check_owner_count_for_removal()?;
            }
        }
        match position_of_user(&self.members, target_user) {
            Some(index) => {
                let mut member = self.members[index];
                member.role = new_role;
                self.members.set(index, member);
                assert(is_first_index(old(self).members@, target_user, index as int));
                Ok(member)
            },
            None => Err(DomainError::MemberNotFound(target_user)),
        }
    }

    /// Removes `target_user` from the board on behalf of `action_user`, and
    /// returns the removed membership.
    pub fn remove_member(&mut self, action_user: u128, target_user: u128) -> (r: DomainResult<
        BoardMember,
    >)
        ensures
            Board::remove_member_post(*old(self), *final(self), action_user, target_user, r),
    {
        if !self.is_owner(action_user) {
            return Err(
                DomainError::Static("Must be Owner of this board to delete a member on this board"),
            );
        }
        let is_target_owner = target_user == self.owner_id || self.is_owner_member(target_user);
        if is_target_owner {
            self.check_owner_count_for_removal()?;
        }
        if let Some(index) = position_of_user(&self.members, target_user) {
            let removed = self.members.remove(index);
            assert(is_first_index(old(self).members@, target_user, index as int));
            return Ok(removed);
        }
        Err(DomainError::Static("User is not a member of this board"))
    }

    /// `user_id` is a member whose role lets it change the board.
    pub fn can_edit_board(&self, user_id: u128) -> (r: bool)
        ensures
            r == self.spec_can_edit(user_id),
    {
        let mut i: usize = 0;
        while i < self.members.len()
            invariant
                0 <= i <= self.members@.len(),
                forall|j: int|
                    0 <= j < i ==> !(#[trigger] self.members@[j].user_id == user_id && role_can_edit(
                        self.members@[j].role,
                    )),
            decreases self.members@.len() - i,
        {
            if self.members[i].user_id == user_id && self.members[i].can_edit_board() {
                return true;
            }
            i = i + 1;
        }
        false
    }

    /// `user_id` is a member whose role lets it read the board.
    pub fn can_view_board(&self, user_id: u128) -> (r: bool)
        ensures
            r == self.spec_can_view(user_id),
    {
        let mut i: usize = 0;
        while i < self.members.len()
            invariant
                0 <= i <= self.members@.len(),
                forall|j: int|
                    0 <= j < i ==> !(#[trigger] self.members@[j].user_id == user_id && role_can_view(
                        self.members@[j].role,
                    )),
            decreases self.members@.len() - i,
        {
            if self.members[i].user_id == user_id && self.members[i].can_view_board() {
                return true;
            }
            i = i + 1;
        }
        false
    }

    fn is_owner(&self, action_user: u128) -> (r: bool)
        ensures
            r == self.spec_is_owner(action_user),
    {
        self.owner_id == action_user || self.is_owner_member(action_user)
    }

    fn is_owner_member(&self, u: u128) -> (r: bool)
        ensures
            r == has_owner_member(self.members@, u),
    {
        let mut i: usize = 0;
        while i < self.members.len()
            invariant
                0 <= i <= self.members@.len(),
                forall|j: int|
                    0 <= j < i ==> !(#[trigger] self.members@[j].user_id == u
                        && self.members@[j].role == BoardRole::Owner),
            decreases self.members@.len() - i,
        {
            if self.members[i].user_id == u && self.members[i].is_owner() {
                return true;
            }
            i = i + 1;
        }
        false
    }

    /// Some member is the user `a` and also the user `b`.
    fn any_member_is_both(&self, a: u128, b: u128) -> (r: bool)
        ensures
            r == (a == b && has_member(self.members@, a)),
    {
        let mut i: usize = 0;
        while i < self.members.len()
            invariant
                0 <= i <= self.members@.len(),
                forall|j: int|
                    0 <= j < i ==> !(#[trigger] self.members@[j].user_id == a && self.members@[j].user_id
                        == b),
            decreases self.members@.len() - i,
        {
            if self.members[i].user_id == a && self.members[i].user_id == b {
                return true;
            }
            i = i + 1;
        }
        false
    }

    fn check_owner_count_for_removal(&self) -> (r: DomainResult<()>)
        ensures
            owner_count(self.members@) <= 1 ==> (r matches Err(e) && is_static_error(e, msg_last_owner())),
            owner_count(self.members@) > 1 ==> r == Ok::<(), DomainError>(()),
    {
        let mut owner_count_exec: usize = 0;
        let mut i: usize = 0;
        while i < self.members.len()
            invariant
                0 <= i <= self.members@.len(),
                owner_count_exec == owner_count(self.members@.take(i as int)),
                owner_count_exec <= i,
            decreases self.members@.len() - i,
        {
            proof {
                assert(self.members@.take(i + 1).drop_last() =~= self.members@.take(i as int));
            }
            if self.members[i].is_owner() {
                owner_count_exec = owner_count_exec + 1;
            }
            i = i + 1;
        }
        proof {
            assert(self.members@.take(i as int) =~= self.members@);
        }
        if owner_count_exec <= 1 {
            return Err(DomainError::Static("Cannot leave board without owner"));
        }
        Ok(())
    }
}

/// The first position of `members` that holds the user `u`, if any.
fn position_of_user(members: &Vec<BoardMember>, u: u128) -> (r: Option<usize>)
    ensures
        match r {
            Some(i) => is_first_index(members@, u, i as int),
            None => !has_member(members@, u),
        },
{
    let mut i: usize = 0;
    while i < members.len()
        invariant
            0 <= i <= members@.len(),
            forall|j: int| 0 <= j < i ==> #[trigger] members@[j].user_id != u,
        decreases members@.len() - i,
    {
        if members[i].user_id == u {
            return Some(i);
        }
        i = i + 1;
    }
    None
}

/// Removing position `i` lowers the owner count by one exactly when that
/// member is an Owner.
pub proof fn lemma_owner_count_remove(ms: Seq<BoardMember>, i: int)
    requires
        0 <= i < ms.len(),
    ensures
        owner_count(ms.remove(i)) + (if ms[i].role == BoardRole::Owner { 1nat } else { 0nat })
            == owner_count(ms),
    decreases ms.len(),
{
    if i == ms.len() - 1 {
        assert(ms.remove(i) =~= ms.drop_last());
    } else {
        lemma_owner_count_remove(ms.drop_last(), i);
        assert(ms.remove(i).drop_last() =~= ms.drop_last().remove(i));
    }
}

/// Replacing position `i` by `m` changes the owner count by the roles of the
/// two.
pub proof fn lemma_owner_count_update(ms: Seq<BoardMember>, i: int, m: BoardMember)
    requires
        0 <= i < ms.len(),
    ensures
        owner_count(ms.update(i, m)) + (if ms[i].role == BoardRole::Owner { 1nat } else { 0nat })
            == owner_count(ms) + (if m.role == BoardRole::Owner { 1nat } else { 0nat }),
    decreases ms.len(),
{
    if i == ms.len() - 1 {
        assert(ms.update(i, m).drop_last() =~= ms.drop_last());
    } else {
        lemma_owner_count_update(ms.drop_last(), i, m);
        assert(ms.update(i, m).drop_last() =~= ms.drop_last().update(i, m));
    }
}

/// No user holds two memberships of `ms`.
pub open spec fn members_distinct(ms: Seq<BoardMember>) -> bool {
    forall|i: int, j: int|
        0 <= i < ms.len() && 0 <= j < ms.len() && i != j ==> #[trigger] ms[i].user_id
            != #[trigger] ms[j].user_id
}

/// Changing the first membership of `target` to `new_role` takes the board's
/// last Owner membership away from someone other than the board's owner.
pub open spec fn role_change_drops_last_owner(pre: Board, target: u128, new_role: BoardRole) -> bool {
    &&& new_role != BoardRole::Owner
    &&& target != pre.owner_id
    &&& owner_count(pre.members@) == 1
    &&& exists|i: int|
        #![trigger is_first_index(pre.members@, target, i)]
        is_first_index(pre.members@, target, i) && pre.members@[i].role == BoardRole::Owner
}

/// Only a user who may manage members (the board's owner or an Owner member)
/// gets a member added, a role changed or a member removed.
pub proof fn law_only_owners_manage_members(
    pre: Board,
    post: Board,
    action_user: u128,
    target: u128,
    member: BoardMember,
    new_role: BoardRole,
    r_add: DomainResult<()>,
    r_change: DomainResult<BoardMember>,
    r_remove: DomainResult<BoardMember>,
)
    ensures
        Board::add_member_post(pre, post, action_user, member, r_add) && r_add is Ok
            ==> pre.spec_is_owner(action_user),
        Board::change_member_role_post(pre, post, action_user, target, new_role, r_change)
            && r_change is Ok ==> pre.spec_is_owner(action_user),
        Board::remove_member_post(pre, post, action_user, target, r_remove) && r_remove is Ok
            ==> pre.spec_is_owner(action_user),
{
}

/// A board never grows past `MAX_MEMBERS` members by `add_member`, and never
/// takes a user twice: an added member's user was not a member before.
pub proof fn law_add_member_keeps_bounds(
    pre: Board,
    post: Board,
    action_user: u128,
    member: BoardMember,
    r: DomainResult<()>,
)
    requires
        Board::add_member_post(pre, post, action_user, member, r),
    ensures
        r is Ok ==> post.members@.len() <= MAX_MEMBERS && post.members@.len() == pre.members@.len() + 1,
        r is Ok ==> has_member(post.members@, member.user_id) && !has_member(pre.members@, member.user_id),
        members_distinct(pre.members@) ==> members_distinct(post.members@),
{
    if r is Ok {
        let n = pre.members@.len() as int;
        assert(post.members@[n] == member);
        if members_distinct(pre.members@) {
            assert forall|i: int, j: int|
                0 <= i < post.members@.len() && 0 <= j < post.members@.len() && i != j
                implies #[trigger] post.members@[i].user_id != #[trigger] post.members@[j].user_id by {
                if i < n && j < n {
                    assert(pre.members@[i] == post.members@[i]);
                    assert(pre.members@[j] == post.members@[j]);
                } else if i < n {
                    assert(pre.members@[i] == post.members@[i]);
                } else {
                    assert(pre.members@[j] == post.members@[j]);
                }
            }
        }
    }
}

/// A member's removal never leaves a board that had an Owner member without
/// one, and keeps its members distinct.
pub proof fn law_remove_member_keeps_an_owner(
    pre: Board,
    post: Board,
    action_user: u128,
    target: u128,
    r: DomainResult<BoardMember>,
)
    requires
        Board::remove_member_post(pre, post, action_user, target, r),
        owner_count(pre.members@) >= 1,
    ensures
        owner_count(post.members@) >= 1,
        members_distinct(pre.members@) ==> members_distinct(post.members@),
{
    if r is Ok {
        let i = choose|i: int|
            #![trigger is_first_index(pre.members@, target, i)]
            is_first_index(pre.members@, target, i) && {
                &&& r == Ok::<BoardMember, DomainError>(pre.members@[i])
                &&& post.members@ == pre.members@.remove(i)
                &&& same_board_header(post, pre)
            };
        lemma_owner_count_remove(pre.members@, i);
        if pre.members@[i].role == BoardRole::Owner {
            assert(has_owner_member(pre.members@, target));
        }
        if members_distinct(pre.members@) {
            assert forall|a: int, b: int|
                0 <= a < post.members@.len() && 0 <= b < post.members@.len() && a != b
                implies #[trigger] post.members@[a].user_id != #[trigger] post.members@[b].user_id by {
                let a2 = if a < i { a } else { a + 1 };
                let b2 = if b < i { b } else { b + 1 };
                assert(post.members@[a] == pre.members@[a2]);
                assert(post.members@[b] == pre.members@[b2]);
            }
        }
    }
}

/// A role change never leaves a board that had an Owner member without one,
/// except when it takes the last Owner role from a member who is not the
/// board's owner (the guard only protects the board's owner); it keeps the
/// members' users as they were.
pub proof fn law_change_role_keeps_an_owner(
    pre: Board,
    post: Board,
    action_user: u128,
    target: u128,
    new_role: BoardRole,
    r: DomainResult<BoardMember>,
)
    requires
        Board::change_member_role_post(pre, post, action_user, target, new_role, r),
        owner_count(pre.members@) >= 1,
        !role_change_drops_last_owner(pre, target, new_role),
    ensures
        owner_count(post.members@) >= 1,
        post.members@.len() == pre.members@.len(),
        forall|k: int| 0 <= k < pre.members@.len() ==> #[trigger] post.members@[k].user_id
            == pre.members@[k].user_id,
{
    if r is Ok {
        let i = choose|i: int|
            #![trigger is_first_index(pre.members@, target, i)]
            is_first_index(pre.members@, target, i) && {
                let changed = BoardMember { role: new_role, ..pre.members@[i] };
                &&& r == Ok::<BoardMember, DomainError>(changed)
                &&& post.members@ == pre.members@.update(i, changed)
                &&& same_board_header(post, pre)
            };
        let changed = BoardMember { role: new_role, ..pre.members@[i] };
        lemma_owner_count_update(pre.members@, i, changed);
        if pre.members@[i].role == BoardRole::Owner && new_role != BoardRole::Owner {
            if target == pre.owner_id {
                assert(owner_count(pre.members@) > 1);
            } else {
                assert(owner_count(pre.members@) != 1);
            }
        }
    }
}

/// Every role that lets a member change a board also lets it read the board.
pub proof fn law_edit_implies_view(b: Board, u: u128)
    ensures
        b.spec_can_edit(u) ==> b.spec_can_view(u),
{
}

} // verus!
