//! Board use cases: the full view of a board, its creation and its members.
use vstd::prelude::*;
use std::collections::HashMap;
use crate::application::app_error::AppError;
use vstd::std_specs::convert::FromSpecImpl;
use crate::domain::domain_error::DomainError;
use crate::domain::entities::board::{Board, has_member, is_first_index, made_with_defaults, same_board_header};
use crate::domain::entities::board_column::BoardColumn;
use crate::domain::entities::board_member::BoardMember;
use crate::domain::entities::board_role::BoardRole;
use crate::domain::entities::column_type::ColumnType;
use crate::domain::entities::item::Item;
use crate::domain::entities::item_priority::ItemPriority;
use crate::domain::entities::user::User;

verus! {

/// How many items of each column the full view of a board shows.
pub const ITEM_FETCH_LIMIT_BY_BOARD: i64 = 10;

/// A board as its members see it: its members and its columns with their
/// items.
#[derive(Debug)]
pub struct BoardResponseDto {
    pub id: u128,
    pub title: String,
    pub description: String,
    pub owner_id: u128,
    pub members: Vec<BoardMemberResponseDto>,
    pub columns: Vec<ColumnResponseDto>,
}

#[derive(Debug, Clone, Copy, PartialEq, Eq)]
pub struct BoardMemberResponseDto {
    pub id: u128,
    pub user_id: u128,
    pub role: BoardRole,
}

#[derive(Debug)]
pub struct ColumnResponseDto {
    pub id: u128,
    pub name: String,
    pub order_index: usize,
    pub kind: ColumnType,
    pub items: Vec<ItemResponseDto>,
}

#[derive(Debug)]
pub struct ItemResponseDto {
    pub id: u128,
    pub title: String,
    pub description: Option<String>,
    pub priority: ItemPriority,
    pub assigned_to: Option<u128>,
    pub is_done: bool,
    pub created_at: i64,
}

/// The view of `m`.
pub open spec fn member_dto(m: BoardMember) -> BoardMemberResponseDto {
    BoardMemberResponseDto { id: m.id, user_id: m.user_id, role: m.role }
}

/// `d` shows the item `it`.
pub open spec fn shows_item(d: ItemResponseDto, it: Item) -> bool {
    &&& d.id == it.id
    &&& d.title == it.title
    &&& d.description == it.description
    &&& d.priority == it.priority
    &&& d.assigned_to == it.assigned_to
    &&& d.is_done == it.is_done
    &&& d.created_at == it.created_at
}

/// The items of `items` that are in column `column_id`, in their order.
pub open spec fn items_of_column(items: Seq<Item>, column_id: u128) -> Seq<Item>
    decreases items.len(),
{
    if items.len() == 0 {
        Seq::empty()
    } else if items.last().column_id == column_id {
        items_of_column(items.drop_last(), column_id).push(items.last())
    } else {
        items_of_column(items.drop_last(), column_id)
    }
}

/// The items of a column are the board's items in it, in their order: the
/// filter of `items` by column.
pub proof fn law_items_of_column_is_filter(items: Seq<Item>, column_id: u128)
    ensures
        items_of_column(items, column_id) == items.filter(|it: Item| it.column_id == column_id),
    decreases items.len(),
{
    reveal(Seq::filter);
    if items.len() > 0 {
        law_items_of_column_is_filter(items.drop_last(), column_id);
    }
}

/// `ds` shows the items `its`, one for one.
pub open spec fn shows_items(ds: Seq<ItemResponseDto>, its: Seq<Item>) -> bool {
    ds.len() == its.len() && forall|i: int| 0 <= i < ds.len() ==> shows_item(#[trigger] ds[i], its[i])
}

/// A column before position `k` of `cs` has the id of the column at `k`.
pub open spec fn id_seen_before(cs: Seq<BoardColumn>, k: int) -> bool {
    exists|j: int| 0 <= j < k && #[trigger] cs[j].id == cs[k].id
}

/// `d` shows the column at position `k` of `cs` with the items of `items`
/// in it; a column whose id an earlier column has shows no items.
pub open spec fn shows_column(d: ColumnResponseDto, cs: Seq<BoardColumn>, k: int, items: Seq<Item>) -> bool {
    &&& d.id == cs[k].id
    &&& d.name == cs[k].name
    &&& d.order_index == cs[k].order_index
    &&& d.kind == cs[k].kind
    &&& if id_seen_before(cs, k) {
        d.items@.len() == 0
    } else {
        shows_items(d.items@, items_of_column(items, cs[k].id))
    }
}

/// `r` is the full view of `board` (of id `board_id`): its header, its
/// members, and its `columns` in their order, each with the items among
/// `items` that are in it (a column whose id an earlier column has shows
/// none).
pub open spec fn shows_board(
    r: BoardResponseDto,
    board: Board,
    board_id: u128,
    columns: Seq<BoardColumn>,
    items: Seq<Item>,
) -> bool {
    &&& r.id == board_id
    &&& r.title == board.title
    &&& r.description == board.description
    &&& r.owner_id == board.owner_id
    &&& r.members@ == board.members@.map_values(|m: BoardMember| member_dto(m))
    &&& r.columns@.len() == columns.len()
    &&& forall|k: int| 0 <= k < columns.len() ==> shows_column(#[trigger] r.columns@[k], columns, k, items)
}

/// Fails with `InvalidCredentials` unless `action_user` may read `board`.
pub fn ensure_can_view(board: &Board, action_user: u128) -> (r: Result<(), AppError>)
    ensures
        board.spec_can_view(action_user) ==> r is Ok,
        !board.spec_can_view(action_user) ==> r matches Err(AppError::InvalidCredentials),
{
    if !board.can_view_board(action_user) {
        return Err(AppError::InvalidCredentials);
    }
    Ok(())
}

/// Fails with `InvalidCredentials` unless `action_user` may change `board`.
pub fn ensure_can_edit(board: &Board, action_user: u128) -> (r: Result<(), AppError>)
    ensures
        board.spec_can_edit(action_user) ==> r is Ok,
        !board.spec_can_edit(action_user) ==> r matches Err(AppError::InvalidCredentials),
{
    if !board.can_edit_board(action_user) {
        return Err(AppError::InvalidCredentials);
    }
    Ok(())
}

fn clone_text(s: &Option<String>) -> (r: Option<String>)
    ensures
        r == *s,
{
    match s {
        Some(t) => Some(t.clone()),
        None => None,
    }
}

/// The view of `it`.
pub open spec fn item_dto_spec(it: Item) -> ItemResponseDto {
    ItemResponseDto {
        id: it.id,
        title: it.title,
        description: it.description,
        priority: it.priority,
        assigned_to: it.assigned_to,
        is_done: it.is_done,
        created_at: it.created_at,
    }
}

impl From<Item> for ItemResponseDto {
    fn from(value: Item) -> (r: Self) {
        Self {
            id: value.id,
            title: value.title,
            description: value.description,
            priority: value.priority,
            assigned_to: value.assigned_to,
            is_done: value.is_done,
            created_at: value.created_at,
        }
    }
}

impl FromSpecImpl<Item> for ItemResponseDto {
    open spec fn obeys_from_spec() -> bool {
        true
    }

    open spec fn from_spec(v: Item) -> Self {
        item_dto_spec(v)
    }
}

impl From<BoardMember> for BoardMemberResponseDto {
    fn from(value: BoardMember) -> (r: Self) {
        Self { id: value.id, user_id: value.user_id, role: value.role }
    }
}

impl FromSpecImpl<BoardMember> for BoardMemberResponseDto {
    open spec fn obeys_from_spec() -> bool {
        true
    }

    open spec fn from_spec(v: BoardMember) -> Self {
        member_dto(v)
    }
}

fn item_dto(it: &Item) -> (d: ItemResponseDto)
    ensures
        shows_item(d, *it),
{
    ItemResponseDto {
        id: it.id,
        title: it.title.clone(),
        description: clone_text(&it.description),
        priority: it.priority,
        assigned_to: it.assigned_to,
        is_done: it.is_done,
        created_at: it.created_at,
    }
}

/// Some column among the first `n` of `cs` has the id `id`.
pub open spec fn id_among(cs: Seq<BoardColumn>, n: int, id: u128) -> bool {
    exists|j: int| 0 <= j < n && #[trigger] cs[j].id == id
}

/// The views of `items` grouped by column: a column id maps to the views of
/// the items in that column, in order, exactly when some item is in it.
fn items_by_column(items: &Vec<Item>) -> (m: HashMap<u128, Vec<ItemResponseDto>>)
    ensures
        forall|k: u128|
            #![trigger m@.contains_key(k)]
            #![trigger items_of_column(items@, k)]
            m@.contains_key(k) <==> items_of_column(items@, k).len() > 0,
        forall|k: u128| #[trigger] m@.contains_key(k) ==> shows_items(m@[k]@, items_of_column(items@, k)),
{
    broadcast use vstd::std_specs::hash::group_hash_axioms;

    let mut m: HashMap<u128, Vec<ItemResponseDto>> = HashMap::new();
    let mut i: usize = 0;
    while i < items.len()
        invariant
            0 <= i <= items@.len(),
            forall|k: u128|
                #![trigger m@.contains_key(k)]
                #![trigger items_of_column(items@.take(i as int), k)]
                m@.contains_key(k) <==> items_of_column(items@.take(i as int), k).len() > 0,
            forall|k: u128|
                #[trigger] m@.contains_key(k) ==> shows_items(m@[k]@, items_of_column(items@.take(i as int), k)),
        decreases items@.len() - i,
    {
        let ghost pre = items@.take(i as int);
        let ghost post = items@.take(i + 1);
        proof {
            assert(post.drop_last() =~= pre);
            assert(post.last() == items@[i as int]);
        }
        let c = items[i].column_id;
        let d = item_dto(&items[i]);
        let ghost old_m = m@;
        let v = match m.remove(&c) {
            Some(v) => v,
            None => Vec::new(),
        };
        let ghost v0 = v@;
        proof {
            if !old_m.contains_key(c) {
                assert(items_of_column(pre, c).len() == 0);
            }
            assert(shows_items(v0, items_of_column(pre, c)));
        }
        let mut v = v;
        v.push(d);
        m.insert(c, v);
        proof {
            assert(items_of_column(post, c) == items_of_column(pre, c).push(items@[i as int]));
            assert forall|j: int| 0 <= j < v@.len() implies shows_item(#[trigger] v@[j], items_of_column(post, c)[j]) by {
                if j < v0.len() {
                    assert(v@[j] == v0[j]);
                }
            }
            assert forall|k: u128| k != c implies items_of_column(post, k) == #[trigger] items_of_column(pre, k) by {}
        }
        i = i + 1;
    }
    proof {
        assert(items@.take(i as int) =~= items@);
    }
    m
}

/// The full view of a board: its header, its members, and its columns in the
/// order given, each with the items among `items` that are in it (a column
/// whose id an earlier column has shows none).
pub fn assemble_full_board(
    board: Board,
    board_id: u128,
    columns: Vec<BoardColumn>,
    items: Vec<Item>,
) -> (r: BoardResponseDto)
    ensures
        shows_board(r, board, board_id, columns@, items@),
{
    let mut members: Vec<BoardMemberResponseDto> = Vec::new();
    let mut i: usize = 0;
    while i < board.members.len()
        invariant
            0 <= i <= board.members@.len(),
            members@ == board.members@.take(i as int).map_values(|m: BoardMember| member_dto(m)),
        decreases board.members@.len() - i,
    {
        let m = board.members[i];
        members.push(BoardMemberResponseDto::from(m));
        proof {
            assert(board.members@.take(i + 1).map_values(|m: BoardMember| member_dto(m))
                =~= board.members@.take(i as int).map_values(|m: BoardMember| member_dto(m)).push(
                member_dto(m),
            ));
        }
        i = i + 1;
    }
    proof {
        assert(board.members@.take(i as int) =~= board.members@);
    }
    let mut by_column = items_by_column(&items);
    let mut columns_dto: Vec<ColumnResponseDto> = Vec::new();
    let mut k: usize = 0;
    while k < columns.len()
        invariant
            0 <= k <= columns@.len(),
            columns_dto@.len() == k,
            forall|t: int|
                0 <= t < k ==> shows_column(#[trigger] columns_dto@[t], columns@, t, items@),
            forall|id: u128|
                #[trigger] by_column@.contains_key(id) ==> shows_items(by_column@[id]@, items_of_column(items@, id))
                    && !id_among(columns@, k as int, id),
            forall|id: u128|
                #![trigger by_column@.contains_key(id)]
                #![trigger id_among(columns@, k as int, id)]
                !by_column@.contains_key(id) && items_of_column(items@, id).len() > 0 ==> id_among(
                    columns@,
                    k as int,
                    id,
                ),
        decreases columns@.len() - k,
    {
        let col = &columns[k];
        let id = col.id;
        proof {
            assert(id_seen_before(columns@, k as int) == id_among(columns@, k as int, id));
            if !by_column@.contains_key(id) && items_of_column(items@, id).len() > 0 {
                assert(id_among(columns@, k as int, id));
            }
        }
        let col_items = match by_column.remove(&id) {
            Some(v) => v,
            None => Vec::new(),
        };
        let d = ColumnResponseDto {
            id: col.id,
            name: col.name.clone(),
            order_index: col.order_index,
            kind: col.kind,
            items: col_items,
        };
        columns_dto.push(d);
        proof {
            assert forall|x: u128| #[trigger] id_among(columns@, k + 1, x) == (id_among(columns@, k as int, x) || x == id) by {
                if id_among(columns@, k + 1, x) && x != id {
                    let j = choose|j: int| 0 <= j < k + 1 && #[trigger] columns@[j].id == x;
                    assert(j < k);
                }
                if x == id {
                    assert(columns@[k as int].id == x);
                }
            }
        }
        k = k + 1;
    }
    BoardResponseDto {
        id: board_id,
        title: board.title,
        description: board.description,
        owner_id: board.owner_id,
        members,
        columns: columns_dto,
    }
}

/// Adds `user_id` with `role` to `board` on behalf of `action_user`, and
/// returns the new membership; a refusal of the board's rules ends in
/// `Domain`.
pub fn add_member_to_board(
    board: &mut Board,
    action_user: u128,
    user_id: u128,
    role: BoardRole,
) -> (r: Result<BoardMember, AppError>)
    ensures
        exists|m: BoardMember, dr: Result<(), DomainError>|
            m.user_id == user_id && m.role == role && #[trigger] Board::add_member_post(
                *old(board),
                *final(board),
                action_user,
                m,
                dr,
            ) && match dr {
                Ok(_) => r == Ok::<BoardMember, AppError>(m),
                Err(e) => r matches Err(AppError::Domain(d)) && d == e,
            },
{
    let new_member = BoardMember::new(user_id, role);
    let dr = board.add_member(action_user, new_member);
    let r = match dr {
        Ok(()) => Ok(new_member),
        Err(e) => Err(AppError::Domain(e)),
    };
    r
}

/// The user found by email, or `UserEmailNotFound(email)`.
pub fn require_user_by_email<T>(found: Option<T>, user_email: &str) -> (r: Result<T, AppError>)
    ensures
        match found {
            Some(u) => r == Ok::<T, AppError>(u),
            None => r matches Err(AppError::UserEmailNotFound(e)) && e@ == user_email@,
        },
{
    match found {
        Some(u) => Ok(u),
        None => Err(AppError::UserEmailNotFound(user_email.to_string())),
    }
}

/// A change of a board's members: adding the user with an email address,
/// or changing the role of a member, or removing one.
pub enum MemberTask {
    /// Add the user with `email` with `role`.
    Add { email: String, role: BoardRole },
    /// Give the member `target` the role `role`.
    ChangeRole { target: u128, role: BoardRole },
    /// Remove the member `target`.
    Remove { target: u128 },
}

/// Where a change of a board's members stands.
pub enum MemberChangeStage {
    /// The request `task` on `board_id` by `action_user`.
    Start { board_id: u128, action_user: u128, task: MemberTask },
    /// Waiting to know whether the requesting user exists.
    AwaitActor { board_id: u128, action_user: u128, task: MemberTask },
    /// Waiting to know whether the member the change is about exists.
    AwaitTarget { board_id: u128, action_user: u128, task: MemberTask },
    /// Waiting for the user with the email address to add.
    AwaitEmail { board_id: u128, action_user: u128, task: MemberTask },
    /// Waiting for the board; `user_id` is the user the change is about.
    AwaitBoard { board_id: u128, action_user: u128, task: MemberTask, user_id: u128 },
    /// The change is over.
    Finished,
}

/// What the storage answered, for a change of a board's members.
pub enum MemberChangeEvent {
    /// The request arrived.
    Requested,
    /// Whether the user asked about exists.
    UserExists(bool),
    /// The user with the email address, if any.
    UserByEmail(Option<User>),
    /// The board, if it exists.
    BoardRead(Option<Board>),
}

/// What to do next, for a change of a board's members.
pub enum MemberChangeAction {
    /// Ask whether the user with this id exists.
    CheckUser(u128),
    /// Read the user with this email address.
    FindUserByEmail(String),
    ReadBoard(u128),
    /// Write the new membership of the board with this id; the change
    /// succeeded.
    AddMember(u128, BoardMember),
    /// Write the changed membership; the change succeeded.
    UpdateMember(BoardMember),
    /// Delete the membership with this id; the change succeeded.
    RemoveMember(u128),
    /// The change failed with this error; nothing is written.
    Fail(AppError),
}

/// The user of id `u` was not found.
pub open spec fn user_not_found(a: MemberChangeAction, u: u128) -> bool {
    a matches MemberChangeAction::Fail(AppError::ResourceNotFound(k, i)) && k@ == "User"@ && i == u
}

/// What the board's rules make of `task` about `user_id` on `board` (of id
/// `board_id`), asked by `action_user`, as action `a`.
pub open spec fn member_task_result(
    board_id: u128,
    board: Board,
    action_user: u128,
    task: MemberTask,
    user_id: u128,
    a: MemberChangeAction,
) -> bool {
    match task {
        MemberTask::Add { role, .. } => exists|m: BoardMember, post: Board, dr: Result<(), DomainError>|
            m.user_id == user_id && m.role == role && #[trigger] Board::add_member_post(
                board,
                post,
                action_user,
                m,
                dr,
            ) && match dr {
                Ok(_) => a == MemberChangeAction::AddMember(board_id, m),
                Err(e) => a matches MemberChangeAction::Fail(AppError::Domain(d)) && d == e,
            },
        MemberTask::ChangeRole { role, .. } => exists|post: Board, r: Result<BoardMember, DomainError>|
            #[trigger] Board::change_member_role_post(board, post, action_user, user_id, role, r) && match r {
                Ok(m) => a == MemberChangeAction::UpdateMember(m),
                Err(e) => a matches MemberChangeAction::Fail(AppError::Domain(d)) && d == e,
            },
        MemberTask::Remove { .. } => exists|post: Board, r: Result<BoardMember, DomainError>|
            #[trigger] Board::remove_member_post(board, post, action_user, user_id, r) && match r {
                Ok(m) => a == MemberChangeAction::RemoveMember(m.id),
                Err(e) => a matches MemberChangeAction::Fail(AppError::Domain(d)) && d == e,
            },
    }
}

/// One step of a change of a board's members: from stage `s` on event `e`
/// to stage `s2` with action `a`. The requesting user must exist; then the
/// member the change is about must exist (for an addition: the user with the
/// email address must be found); then the board is read and its rules decide.
/// An event that the stage does not wait for ends the change with an
/// internal error.
pub open spec fn member_change_transition(
    s: MemberChangeStage,
    e: MemberChangeEvent,
    s2: MemberChangeStage,
    a: MemberChangeAction,
) -> bool {
    match (s, e) {
        (MemberChangeStage::Start { board_id, action_user, task }, MemberChangeEvent::Requested) => {
            &&& s2 == (MemberChangeStage::AwaitActor { board_id, action_user, task })
            &&& a == MemberChangeAction::CheckUser(action_user)
        },
        (MemberChangeStage::AwaitActor { board_id, action_user, task }, MemberChangeEvent::UserExists(exists)) => {
            if !exists {
                s2 == MemberChangeStage::Finished && user_not_found(a, action_user)
            } else {
                match task {
                    MemberTask::Add { email, .. } => {
                        &&& s2 == (MemberChangeStage::AwaitEmail { board_id, action_user, task })
                        &&& a == MemberChangeAction::FindUserByEmail(email)
                    },
                    MemberTask::ChangeRole { target, .. } => {
                        &&& s2 == (MemberChangeStage::AwaitTarget { board_id, action_user, task })
                        &&& a == MemberChangeAction::CheckUser(target)
                    },
                    MemberTask::Remove { target } => {
                        &&& s2 == (MemberChangeStage::AwaitTarget { board_id, action_user, task })
                        &&& a == MemberChangeAction::CheckUser(target)
                    },
                }
            }
        },
        (MemberChangeStage::AwaitTarget { board_id, action_user, task }, MemberChangeEvent::UserExists(exists)) => {
            match task {
                MemberTask::ChangeRole { target, .. } => if !exists {
                    s2 == MemberChangeStage::Finished && user_not_found(a, target)
                } else {
                    &&& s2 == (MemberChangeStage::AwaitBoard { board_id, action_user, task, user_id: target })
                    &&& a == MemberChangeAction::ReadBoard(board_id)
                },
                MemberTask::Remove { target } => if !exists {
                    s2 == MemberChangeStage::Finished && user_not_found(a, target)
                } else {
                    &&& s2 == (MemberChangeStage::AwaitBoard { board_id, action_user, task, user_id: target })
                    &&& a == MemberChangeAction::ReadBoard(board_id)
                },
                MemberTask::Add { .. } => s2 == MemberChangeStage::Finished && (a matches MemberChangeAction::Fail(
                    AppError::Internal(_),
                )),
            }
        },
        (MemberChangeStage::AwaitEmail { board_id, action_user, task }, MemberChangeEvent::UserByEmail(found)) => {
            match task {
                MemberTask::Add { email, .. } => match found {
                    None => s2 == MemberChangeStage::Finished && (a matches MemberChangeAction::Fail(
                        AppError::UserEmailNotFound(m),
                    ) && m@ == email@),
                    Some(u) => {
                        &&& s2 == (MemberChangeStage::AwaitBoard { board_id, action_user, task, user_id: u.id })
                        &&& a == MemberChangeAction::ReadBoard(board_id)
                    },
                },
                _ => s2 == MemberChangeStage::Finished && (a matches MemberChangeAction::Fail(AppError::Internal(_))),
            }
        },
        (MemberChangeStage::AwaitBoard { board_id, action_user, task, user_id }, MemberChangeEvent::BoardRead(found)) => {
            &&& s2 == MemberChangeStage::Finished
            &&& match found {
                None => a matches MemberChangeAction::Fail(AppError::ResourceNotFound(k, i)) && k@ == "Board"@
                    && i == board_id,
                Some(board) => member_task_result(board_id, board, action_user, task, user_id, a),
            }
        },
        _ => s2 == MemberChangeStage::Finished && (a matches MemberChangeAction::Fail(AppError::Internal(_))),
    }
}

fn unexpected_member_step() -> (r: (MemberChangeStage, MemberChangeAction))
    ensures
        r.0 == MemberChangeStage::Finished,
        r.1 matches MemberChangeAction::Fail(AppError::Internal(_)),
{
    (MemberChangeStage::Finished, MemberChangeAction::Fail(AppError::Internal("unexpected step".to_string())))
}

/// One step of a change of a board's members (see
/// `member_change_transition`).
pub fn member_change_step(s: MemberChangeStage, e: MemberChangeEvent) -> (r: (MemberChangeStage, MemberChangeAction))
    ensures
        member_change_transition(s, e, r.0, r.1),
{
    match (s, e) {
        (MemberChangeStage::Start { board_id, action_user, task }, MemberChangeEvent::Requested) => (
            MemberChangeStage::AwaitActor { board_id, action_user, task },
            MemberChangeAction::CheckUser(action_user),
        ),
        (MemberChangeStage::AwaitActor { board_id, action_user, task }, MemberChangeEvent::UserExists(exists)) => {
            if !exists {
                return (
                    MemberChangeStage::Finished,
                    MemberChangeAction::Fail(AppError::ResourceNotFound("User", action_user)),
                );
            }
            match task {
                MemberTask::Add { email, role } => {
                    let find = MemberChangeAction::FindUserByEmail(email.clone());
                    (MemberChangeStage::AwaitEmail { board_id, action_user, task: MemberTask::Add { email, role } }, find)
                },
                MemberTask::ChangeRole { target, role } => (
                    MemberChangeStage::AwaitTarget { board_id, action_user, task: MemberTask::ChangeRole { target, role } },
                    MemberChangeAction::CheckUser(target),
                ),
                MemberTask::Remove { target } => (
                    MemberChangeStage::AwaitTarget { board_id, action_user, task: MemberTask::Remove { target } },
                    MemberChangeAction::CheckUser(target),
                ),
            }
        },
        (MemberChangeStage::AwaitTarget { board_id, action_user, task }, MemberChangeEvent::UserExists(exists)) => {
            let target = match &task {
                MemberTask::ChangeRole { target, .. } => *target,
                MemberTask::Remove { target } => *target,
                MemberTask::Add { .. } => {
                    return unexpected_member_step();
                },
            };
            if !exists {
                (MemberChangeStage::Finished, MemberChangeAction::Fail(AppError::ResourceNotFound("User", target)))
            } else {
                (
                    MemberChangeStage::AwaitBoard { board_id, action_user, task, user_id: target },
                    MemberChangeAction::ReadBoard(board_id),
                )
            }
        },
        (MemberChangeStage::AwaitEmail { board_id, action_user, task }, MemberChangeEvent::UserByEmail(found)) => {
            match task {
                MemberTask::Add { email, role } => match found {
                    None => (
                        MemberChangeStage::Finished,
                        MemberChangeAction::Fail(AppError::UserEmailNotFound(email)),
                    ),
                    Some(u) => (
                        MemberChangeStage::AwaitBoard {
                            board_id,
                            action_user,
                            task: MemberTask::Add { email, role },
                            user_id: u.id,
                        },
                        MemberChangeAction::ReadBoard(board_id),
                    ),
                },
                _ => unexpected_member_step(),
            }
        },
        (MemberChangeStage::AwaitBoard { board_id, action_user, task, user_id }, MemberChangeEvent::BoardRead(found)) => {
            let action = match found {
                None => MemberChangeAction::Fail(AppError::ResourceNotFound("Board", board_id)),
                Some(board) => {
                    let mut board = board;
                    match task {
                        MemberTask::Add { role, .. } => match add_member_to_board(&mut board, action_user, user_id, role) {
                            Ok(m) => MemberChangeAction::AddMember(board_id, m),
                            Err(e) => MemberChangeAction::Fail(e),
                        },
                        MemberTask::ChangeRole { role, .. } => match board.change_member_role(action_user, user_id, role) {
                            Ok(m) => MemberChangeAction::UpdateMember(m),
                            Err(e) => MemberChangeAction::Fail(AppError::Domain(e)),
                        },
                        MemberTask::Remove { .. } => match board.remove_member(action_user, user_id) {
                            Ok(m) => MemberChangeAction::RemoveMember(m.id),
                            Err(e) => MemberChangeAction::Fail(AppError::Domain(e)),
                        },
                    }
                },
            };
            (MemberChangeStage::Finished, action)
        },
        _ => unexpected_member_step(),
    }
}

/// A change of a board's members writes only once the requesting user was
/// found to exist, then the member the change is about (or the user with
/// the email address to add), and the board, read last, found to let that
/// user manage its members (it is the board's owner or an Owner member); a failure ends
/// the change, and an ended change only fails.
pub proof fn law_member_change_writes_only_for_owners(
    s: MemberChangeStage,
    e: MemberChangeEvent,
    s2: MemberChangeStage,
    a: MemberChangeAction,
)
    requires
        member_change_transition(s, e, s2, a),
    ensures
        (a is AddMember || a is UpdateMember || a is RemoveMember) ==> (s matches MemberChangeStage::AwaitBoard {
            action_user,
            ..
        } && (e matches MemberChangeEvent::BoardRead(Some(b)) && b.spec_is_owner(action_user))),
        s2 is AwaitBoard ==> ((s is AwaitTarget && e matches MemberChangeEvent::UserExists(true)) || (
        s is AwaitEmail && e matches MemberChangeEvent::UserByEmail(Some(_)))),
        (s2 is AwaitTarget || s2 is AwaitEmail) ==> (s is AwaitActor && e matches MemberChangeEvent::UserExists(
            true,
        )),
        a is Fail ==> s2 is Finished,
        s is Finished ==> a is Fail,
{
}

/// Where the creation of a board stands.
pub enum CreateBoardStage {
    /// The request for a board titled `title` with `description`, owned by
    /// `owner_id`.
    Start { title: String, description: String, owner_id: u128 },
    /// Waiting to know whether the owner exists.
    AwaitOwner { title: String, description: String, owner_id: u128 },
    /// The creation is over.
    Finished,
}

/// What the storage answered, for the creation of a board.
pub enum CreateBoardEvent {
    /// The request arrived.
    Requested,
    /// Whether the owner exists.
    UserExists(bool),
}

/// What to do next, for the creation of a board.
pub enum CreateBoardAction {
    /// Ask whether the user with this id exists.
    CheckUser(u128),
    /// Write the new board and its columns; the creation succeeded.
    Create(Board, Vec<BoardColumn>),
    /// The creation failed with this error; nothing is written.
    Fail(AppError),
}

/// One step of the creation of a board: from stage `s` on event `e` to
/// stage `s2` with action `a`. The owner must exist; the board is then made
/// with its owner as Owner member and its default columns. An event that the
/// stage does not wait for ends the creation with an internal error.
pub open spec fn create_board_transition(
    s: CreateBoardStage,
    e: CreateBoardEvent,
    s2: CreateBoardStage,
    a: CreateBoardAction,
) -> bool {
    match (s, e) {
        (CreateBoardStage::Start { title, description, owner_id }, CreateBoardEvent::Requested) => {
            &&& s2 == (CreateBoardStage::AwaitOwner { title, description, owner_id })
            &&& a == CreateBoardAction::CheckUser(owner_id)
        },
        (CreateBoardStage::AwaitOwner { title, description, owner_id }, CreateBoardEvent::UserExists(exists)) => {
            &&& s2 == CreateBoardStage::Finished
            &&& if exists {
                a matches CreateBoardAction::Create(b, cols) && made_with_defaults(
                    title,
                    description,
                    owner_id,
                    b,
                    cols@,
                )
            } else {
                a matches CreateBoardAction::Fail(AppError::ResourceNotFound(k, i)) && k@ == "User"@ && i
                    == owner_id
            }
        },
        _ => s2 == CreateBoardStage::Finished && (a matches CreateBoardAction::Fail(AppError::Internal(_))),
    }
}

/// One step of the creation of a board (see `create_board_transition`).
pub fn create_board_step(s: CreateBoardStage, e: CreateBoardEvent) -> (r: (CreateBoardStage, CreateBoardAction))
    ensures
        create_board_transition(s, e, r.0, r.1),
{
    match (s, e) {
        (CreateBoardStage::Start { title, description, owner_id }, CreateBoardEvent::Requested) => (
            CreateBoardStage::AwaitOwner { title, description, owner_id },
            CreateBoardAction::CheckUser(owner_id),
        ),
        (CreateBoardStage::AwaitOwner { title, description, owner_id }, CreateBoardEvent::UserExists(exists)) => {
            if exists {
                let (board, columns) = Board::create_with_defaults(title, description, owner_id);
                (CreateBoardStage::Finished, CreateBoardAction::Create(board, columns))
            } else {
                (CreateBoardStage::Finished, CreateBoardAction::Fail(AppError::ResourceNotFound("User", owner_id)))
            }
        },
        _ => (
            CreateBoardStage::Finished,
            CreateBoardAction::Fail(AppError::Internal("unexpected step".to_string())),
        ),
    }
}

/// Where the full view of a board stands.
pub enum BoardViewStage {
    /// The request for the view of `board_id` by `action_user`.
    Start { board_id: u128, action_user: u128 },
    /// Waiting for the board.
    AwaitBoard { board_id: u128, action_user: u128 },
    /// The user may read the board; waiting for its columns.
    AwaitColumns { board_id: u128, board: Board },
    /// Waiting for the first items of each column.
    AwaitItems { board_id: u128, board: Board, columns: Vec<BoardColumn> },
    /// The view is over.
    Finished,
}

/// What the storage answered, for the view of a board.
pub enum BoardViewEvent {
    /// The request arrived.
    Requested,
    /// The board, if it exists.
    BoardRead(Option<Board>),
    /// The board's columns.
    ColumnsRead(Vec<BoardColumn>),
    /// The first items of the board's columns.
    ItemsRead(Vec<Item>),
}

/// What to do next, for the view of a board.
pub enum BoardViewAction {
    ReadBoard(u128),
    ReadColumns(u128),
    /// Read, of the board with this id, at most that many items of each
    /// column.
    ReadTopItems(u128, i64),
    /// Give back this view; the request succeeded.
    Show(BoardResponseDto),
    /// The request failed with this error.
    Fail(AppError),
}

/// One step of the view of a board: from stage `s` on event `e` to stage
/// `s2` with action `a`. The board is read; a user who may not read it is
/// refused before its columns and items are read; the view is then
/// assembled. An event that the stage does not wait for ends the request
/// with an internal error.
pub open spec fn board_view_transition(s: BoardViewStage, e: BoardViewEvent, s2: BoardViewStage, a: BoardViewAction) -> bool {
    match (s, e) {
        (BoardViewStage::Start { board_id, action_user }, BoardViewEvent::Requested) => {
            &&& s2 == (BoardViewStage::AwaitBoard { board_id, action_user })
            &&& a == BoardViewAction::ReadBoard(board_id)
        },
        (BoardViewStage::AwaitBoard { board_id, action_user }, BoardViewEvent::BoardRead(found)) => {
            match found {
                None => s2 == BoardViewStage::Finished && (a matches BoardViewAction::Fail(
                    AppError::ResourceNotFound(k, i),
                ) && k@ == "Board"@ && i == board_id),
                Some(board) => if board.spec_can_view(action_user) {
                    &&& s2 == (BoardViewStage::AwaitColumns { board_id, board })
                    &&& a == BoardViewAction::ReadColumns(board_id)
                } else {
                    s2 == BoardViewStage::Finished && (a matches BoardViewAction::Fail(AppError::InvalidCredentials))
                },
            }
        },
        (BoardViewStage::AwaitColumns { board_id, board }, BoardViewEvent::ColumnsRead(columns)) => {
            &&& s2 == (BoardViewStage::AwaitItems { board_id, board, columns })
            &&& a == BoardViewAction::ReadTopItems(board_id, ITEM_FETCH_LIMIT_BY_BOARD)
        },
        (BoardViewStage::AwaitItems { board_id, board, columns }, BoardViewEvent::ItemsRead(items)) => {
            &&& s2 == BoardViewStage::Finished
            &&& a matches BoardViewAction::Show(v) && shows_board(v, board, board_id, columns@, items@)
        },
        _ => s2 == BoardViewStage::Finished && (a matches BoardViewAction::Fail(AppError::Internal(_))),
    }
}

/// One step of the view of a board (see `board_view_transition`).
pub fn board_view_step(s: BoardViewStage, e: BoardViewEvent) -> (r: (BoardViewStage, BoardViewAction))
    ensures
        board_view_transition(s, e, r.0, r.1),
{
    match (s, e) {
        (BoardViewStage::Start { board_id, action_user }, BoardViewEvent::Requested) => (
            BoardViewStage::AwaitBoard { board_id, action_user },
            BoardViewAction::ReadBoard(board_id),
        ),
        (BoardViewStage::AwaitBoard { board_id, action_user }, BoardViewEvent::BoardRead(found)) => {
            match found {
                None => (BoardViewStage::Finished, BoardViewAction::Fail(AppError::ResourceNotFound("Board", board_id))),
                Some(board) => if board.can_view_board(action_user) {
                    (BoardViewStage::AwaitColumns { board_id, board }, BoardViewAction::ReadColumns(board_id))
                } else {
                    (BoardViewStage::Finished, BoardViewAction::Fail(AppError::InvalidCredentials))
                },
            }
        },
        (BoardViewStage::AwaitColumns { board_id, board }, BoardViewEvent::ColumnsRead(columns)) => (
            BoardViewStage::AwaitItems { board_id, board, columns },
            BoardViewAction::ReadTopItems(board_id, ITEM_FETCH_LIMIT_BY_BOARD),
        ),
        (BoardViewStage::AwaitItems { board_id, board, columns }, BoardViewEvent::ItemsRead(items)) => (
            BoardViewStage::Finished,
            BoardViewAction::Show(assemble_full_board(board, board_id, columns, items)),
        ),
        _ => (BoardViewStage::Finished, BoardViewAction::Fail(AppError::Internal("unexpected step".to_string()))),
    }
}

/// The view of a board reads its columns and items, and shows it, only once
/// the board was found to let the requesting user read it.
pub proof fn law_board_view_only_for_readers(s: BoardViewStage, e: BoardViewEvent, s2: BoardViewStage, a: BoardViewAction)
    requires
        board_view_transition(s, e, s2, a),
    ensures
        s2 is AwaitColumns ==> (s matches BoardViewStage::AwaitBoard { action_user, .. } && (
        e matches BoardViewEvent::BoardRead(Some(b)) && b.spec_can_view(action_user))),
        s2 is AwaitItems ==> s is AwaitColumns,
        a is Show ==> s is AwaitItems,
        a is Fail ==> s2 is Finished,
{
}

/// What a change of members writes is about the user it was asked for: an
/// addition adds that user (found by email) with the role asked for to the
/// board asked for, only when it was no member and the requesting user
/// manages the board; a role change writes that member with the new role;
/// a removal deletes a membership of that member.
pub proof fn law_member_change_acts_on_the_requested_member(
    board_id: u128,
    action_user: u128,
    task: MemberTask,
    user_id: u128,
    board: Board,
    s2: MemberChangeStage,
    a: MemberChangeAction,
)
    requires
        member_change_transition(
            MemberChangeStage::AwaitBoard { board_id, action_user, task, user_id },
            MemberChangeEvent::BoardRead(Some(board)),
            s2,
            a,
        ),
    ensures
        s2 is Finished,
        a matches MemberChangeAction::AddMember(b, m) ==> {
            &&& b == board_id
            &&& m.user_id == user_id
            &&& task matches MemberTask::Add { role, .. } && m.role == role
            &&& !has_member(board.members@, user_id)
            &&& board.spec_is_owner(action_user)
        },
        a matches MemberChangeAction::UpdateMember(m) ==> {
            &&& m.user_id == user_id
            &&& task matches MemberTask::ChangeRole { role, .. } && m.role == role
            &&& board.spec_is_owner(action_user)
        },
        a matches MemberChangeAction::RemoveMember(id) ==> {
            &&& task is Remove
            &&& exists|i: int|
                0 <= i < board.members@.len() && #[trigger] board.members@[i].id == id
                    && board.members@[i].user_id == user_id
            &&& board.spec_is_owner(action_user)
        },
{
    match task {
        MemberTask::Add { .. } => {},
        MemberTask::ChangeRole { role, .. } => {
            if a is UpdateMember {
                let (post, r) = choose|post: Board, r: Result<BoardMember, DomainError>|
                    #[trigger] Board::change_member_role_post(board, post, action_user, user_id, role, r)
                        && match r {
                        Ok(m) => a == MemberChangeAction::UpdateMember(m),
                        Err(e) => a matches MemberChangeAction::Fail(AppError::Domain(d)) && d == e,
                    };
                let i = choose|i: int|
                    #![trigger is_first_index(board.members@, user_id, i)]
                    is_first_index(board.members@, user_id, i) && {
                        let changed = BoardMember { role: role, ..board.members@[i] };
                        &&& r == Ok::<BoardMember, DomainError>(changed)
                        &&& post.members@ == board.members@.update(i, changed)
                        &&& same_board_header(post, board)
                    };
            }
        },
        MemberTask::Remove { .. } => {
            if a is RemoveMember {
                let (post, r) = choose|post: Board, r: Result<BoardMember, DomainError>|
                    #[trigger] Board::remove_member_post(board, post, action_user, user_id, r) && match r {
                        Ok(m) => a == MemberChangeAction::RemoveMember(m.id),
                        Err(e) => a matches MemberChangeAction::Fail(AppError::Domain(d)) && d == e,
                    };
                let i = choose|i: int|
                    #![trigger is_first_index(board.members@, user_id, i)]
                    is_first_index(board.members@, user_id, i) && {
                        &&& r == Ok::<BoardMember, DomainError>(board.members@[i])
                        &&& post.members@ == board.members@.remove(i)
                        &&& same_board_header(post, board)
                    };
                assert(board.members@[i].id == a->RemoveMember_0);
            }
        },
    }
}

} // verus!
