//! Item use cases: editing an item's details, and the steps of moving an
//! item and of adding one, from reading what they need to writing it.
use vstd::prelude::*;
use crate::application::app_error::AppError;
use crate::domain::entities::board::Board;
use crate::domain::entities::board_column::{BoardColumn, move_item_post, new_item_post};
use crate::domain::entities::item::Item;
use crate::domain::entities::item_history::ItemHistory;
use crate::domain::entities::item_priority::ItemPriority;

verus! {

/// Sets the title, description, assignee and priority of `item`.
pub fn apply_item_details(
    item: &mut Item,
    title: String,
    description: Option<String>,
    assigned_to: Option<u128>,
    priority: ItemPriority,
)
    ensures
        *final(item) == (Item {
            title: title,
            description: description,
            assigned_to: assigned_to,
            priority: priority,
            ..*old(item)
        }),
{
    item.title = title;
    item.description = description;
    item.assigned_to = assigned_to;
    item.priority = priority;
}

/// Where moving an item into a column stands.
pub enum MoveItemStage {
    /// The request for moving `item_id` into `column_id` by `action_user`.
    Start { item_id: u128, column_id: u128, action_user: u128 },
    /// Waiting for the item.
    AwaitItem { item_id: u128, column_id: u128, action_user: u128 },
    /// Waiting for the target column.
    AwaitColumn { item: Item, column_id: u128, action_user: u128 },
    /// Waiting for the column's board.
    AwaitBoard { item: Item, column: BoardColumn, action_user: u128 },
    /// The user may change the board; waiting for the column's item count.
    AwaitCount { item: Item, column: BoardColumn },
    /// The move is over.
    Finished,
}

/// What the storage answered, for a move of an item.
pub enum MoveItemEvent {
    /// The request arrived.
    Requested,
    /// The item read, if it exists.
    ItemRead(Option<Item>),
    /// The column read, if it exists.
    ColumnRead(Option<BoardColumn>),
    /// The board of the column.
    BoardRead(Board),
    /// How many items the column holds.
    ItemCount(usize),
}

/// What to do next, for a move of an item.
pub enum MoveItemAction {
    ReadItem(u128),
    ReadColumn(u128),
    /// Read the board with this id, which exists.
    ReadBoard(u128),
    CountItems(u128),
    /// Write the moved item and the entry of the move; the move succeeded.
    Save(Item, ItemHistory),
    /// The move failed with this error; nothing is written.
    Fail(AppError),
}

/// One step of a move: from stage `s` on event `e` to stage `s2` with action
/// `a`. The item, then the column, then its board are read; a user who may
/// not change the board is refused before the column's items are counted;
/// the move itself is the column's. An event that the stage does not wait
/// for ends the move with an internal error.
pub open spec fn move_item_transition(
    s: MoveItemStage,
    e: MoveItemEvent,
    s2: MoveItemStage,
    a: MoveItemAction,
) -> bool {
    match (s, e) {
        (MoveItemStage::Start { item_id, column_id, action_user }, MoveItemEvent::Requested) => {
            &&& s2 == (MoveItemStage::AwaitItem { item_id, column_id, action_user })
            &&& a == MoveItemAction::ReadItem(item_id)
        },
        (MoveItemStage::AwaitItem { item_id, column_id, action_user }, MoveItemEvent::ItemRead(found)) => {
            match found {
                None => s2 == MoveItemStage::Finished && (a matches MoveItemAction::Fail(
                    AppError::ResourceNotFound(k, i),
                ) && k@ == "Item"@ && i == item_id),
                Some(item) => {
                    &&& s2 == (MoveItemStage::AwaitColumn { item, column_id, action_user })
                    &&& a == MoveItemAction::ReadColumn(column_id)
                },
            }
        },
        (MoveItemStage::AwaitColumn { item, column_id, action_user }, MoveItemEvent::ColumnRead(found)) => {
            match found {
                None => s2 == MoveItemStage::Finished && (a matches MoveItemAction::Fail(
                    AppError::ResourceNotFound(k, i),
                ) && k@ == "Column"@ && i == column_id),
                Some(column) => {
                    &&& s2 == (MoveItemStage::AwaitBoard { item, column, action_user })
                    &&& a == MoveItemAction::ReadBoard(column.board_id)
                },
            }
        },
        (MoveItemStage::AwaitBoard { item, column, action_user }, MoveItemEvent::BoardRead(board)) => {
            if board.spec_can_edit(action_user) {
                &&& s2 == (MoveItemStage::AwaitCount { item, column })
                &&& a == MoveItemAction::CountItems(column.id)
            } else {
                s2 == MoveItemStage::Finished && (a matches MoveItemAction::Fail(
                    AppError::InvalidCredentials,
                ))
            }
        },
        (MoveItemStage::AwaitCount { item, column }, MoveItemEvent::ItemCount(n)) => {
            &&& s2 == MoveItemStage::Finished
            &&& exists|after: Item, r: Result<ItemHistory, crate::domain::domain_error::DomainError>|
                #[trigger] move_item_post(column, n, item, after, r) && match r {
                    Ok(h) => a == MoveItemAction::Save(after, h),
                    Err(err) => a matches MoveItemAction::Fail(AppError::Domain(d)) && d == err,
                }
        },
        _ => s2 == MoveItemStage::Finished && (a matches MoveItemAction::Fail(AppError::Internal(_))),
    }
}

/// One step of moving an item (see `move_item_transition`).
pub fn move_item_step(s: MoveItemStage, e: MoveItemEvent) -> (r: (MoveItemStage, MoveItemAction))
    ensures
        move_item_transition(s, e, r.0, r.1),
{
    match (s, e) {
        (MoveItemStage::Start { item_id, column_id, action_user }, MoveItemEvent::Requested) => {
            (MoveItemStage::AwaitItem { item_id, column_id, action_user }, MoveItemAction::ReadItem(item_id))
        },
        (MoveItemStage::AwaitItem { item_id, column_id, action_user }, MoveItemEvent::ItemRead(found)) => {
            match found {
                None => (
                    MoveItemStage::Finished,
                    MoveItemAction::Fail(AppError::ResourceNotFound("Item", item_id)),
                ),
                Some(item) => (
                    MoveItemStage::AwaitColumn { item, column_id, action_user },
                    MoveItemAction::ReadColumn(column_id),
                ),
            }
        },
        (MoveItemStage::AwaitColumn { item, column_id, action_user }, MoveItemEvent::ColumnRead(found)) => {
            match found {
                None => (
                    MoveItemStage::Finished,
                    MoveItemAction::Fail(AppError::ResourceNotFound("Column", column_id)),
                ),
                Some(column) => {
                    let board_id = column.board_id;
                    (MoveItemStage::AwaitBoard { item, column, action_user }, MoveItemAction::ReadBoard(board_id))
                },
            }
        },
        (MoveItemStage::AwaitBoard { item, column, action_user }, MoveItemEvent::BoardRead(board)) => {
            if board.can_edit_board(action_user) {
                let column_id = column.id;
                (MoveItemStage::AwaitCount { item, column }, MoveItemAction::CountItems(column_id))
            } else {
                (MoveItemStage::Finished, MoveItemAction::Fail(AppError::InvalidCredentials))
            }
        },
        (MoveItemStage::AwaitCount { item, column }, MoveItemEvent::ItemCount(n)) => {
            let mut item = item;
            let ghost before = item;
            let r = column.move_item(n, &mut item);
            let ghost after = item;
            let ghost rg = r;
            let action = match r {
                Ok(h) => MoveItemAction::Save(item, h),
                Err(err) => MoveItemAction::Fail(AppError::Domain(err)),
            };
            assert(move_item_post(column, n, before, after, rg));
            (MoveItemStage::Finished, action)
        },
        _ => (MoveItemStage::Finished, MoveItemAction::Fail(AppError::Internal("unexpected step".to_string()))),
    }
}

/// A move writes only after the board was found to let the user change it:
/// the only step that saves starts from the stage of counting the column's
/// items, which only a board that lets the requesting user change it leads
/// to; a failure ends the move, and an ended move only fails.
pub proof fn law_move_item_writes_only_when_permitted(
    s: MoveItemStage,
    e: MoveItemEvent,
    s2: MoveItemStage,
    a: MoveItemAction,
)
    requires
        move_item_transition(s, e, s2, a),
    ensures
        a is Save ==> s is AwaitCount,
        s2 is AwaitCount ==> (s matches MoveItemStage::AwaitBoard { action_user, .. } && (
        e matches MoveItemEvent::BoardRead(b) && b.spec_can_edit(action_user))),
        a is Fail ==> s2 is Finished,
        s is Finished ==> a is Fail,
{
}

/// Where adding an item to a column stands.
pub enum AddItemStage {
    /// The request for an item with these details in `column_id` by
    /// `action_user`.
    Start {
        column_id: u128,
        title: String,
        description: Option<String>,
        assigned_to: Option<u128>,
        priority: ItemPriority,
        action_user: u128,
    },
    /// Waiting for the column.
    AwaitColumn {
        column_id: u128,
        title: String,
        description: Option<String>,
        assigned_to: Option<u128>,
        priority: ItemPriority,
        action_user: u128,
    },
    /// Waiting for the column's board.
    AwaitBoard {
        column: BoardColumn,
        title: String,
        description: Option<String>,
        assigned_to: Option<u128>,
        priority: ItemPriority,
        action_user: u128,
    },
    /// The user may change the board; waiting for the column's item count.
    AwaitCount {
        column: BoardColumn,
        title: String,
        description: Option<String>,
        assigned_to: Option<u128>,
        priority: ItemPriority,
    },
    /// The addition is over.
    Finished,
}

/// What the storage answered, for an addition of an item.
pub enum AddItemEvent {
    /// The request arrived.
    Requested,
    /// The column read, if it exists.
    ColumnRead(Option<BoardColumn>),
    /// The board of the column.
    BoardRead(Board),
    /// How many items the column holds.
    ItemCount(usize),
}

/// What to do next, for an addition of an item.
pub enum AddItemAction {
    ReadColumn(u128),
    /// Read the board with this id, which exists.
    ReadBoard(u128),
    CountItems(u128),
    /// Write the new item and the first entry of its history; the addition
    /// succeeded.
    Create(Item, ItemHistory),
    /// The addition failed with this error; nothing is written.
    Fail(AppError),
}

/// One step of an addition: from stage `s` on event `e` to stage `s2` with
/// action `a`. The column, then its board are read; a user who may not
/// change the board is refused before the column's items are counted; the
/// new item is the column's. An event that the stage does not wait for ends
/// the addition with an internal error.
pub open spec fn add_item_transition(s: AddItemStage, e: AddItemEvent, s2: AddItemStage, a: AddItemAction) -> bool {
    match (s, e) {
        (
            AddItemStage::Start { column_id, title, description, assigned_to, priority, action_user },
            AddItemEvent::Requested,
        ) => {
            &&& s2 == (AddItemStage::AwaitColumn {
                column_id,
                title,
                description,
                assigned_to,
                priority,
                action_user,
            })
            &&& a == AddItemAction::ReadColumn(column_id)
        },
        (
            AddItemStage::AwaitColumn { column_id, title, description, assigned_to, priority, action_user },
            AddItemEvent::ColumnRead(found),
        ) => {
            match found {
                None => s2 == AddItemStage::Finished && (a matches AddItemAction::Fail(
                    AppError::ResourceNotFound(k, i),
                ) && k@ == "Column"@ && i == column_id),
                Some(column) => {
                    &&& s2 == (AddItemStage::AwaitBoard {
                        column,
                        title,
                        description,
                        assigned_to,
                        priority,
                        action_user,
                    })
                    &&& a == AddItemAction::ReadBoard(column.board_id)
                },
            }
        },
        (
            AddItemStage::AwaitBoard { column, title, description, assigned_to, priority, action_user },
            AddItemEvent::BoardRead(board),
        ) => {
            if board.spec_can_edit(action_user) {
                &&& s2 == (AddItemStage::AwaitCount { column, title, description, assigned_to, priority })
                &&& a == AddItemAction::CountItems(column.id)
            } else {
                s2 == AddItemStage::Finished && (a matches AddItemAction::Fail(AppError::InvalidCredentials))
            }
        },
        (
            AddItemStage::AwaitCount { column, title, description, assigned_to, priority },
            AddItemEvent::ItemCount(n),
        ) => {
            &&& s2 == AddItemStage::Finished
            &&& exists|r: Result<(Item, ItemHistory), crate::domain::domain_error::DomainError>|
                #[trigger] new_item_post(column, n, title, description, assigned_to, priority, r) && match r {
                    Ok((item, h)) => a == AddItemAction::Create(item, h),
                    Err(err) => a matches AddItemAction::Fail(AppError::Domain(d)) && d == err,
                }
        },
        _ => s2 == AddItemStage::Finished && (a matches AddItemAction::Fail(AppError::Internal(_))),
    }
}

/// One step of adding an item (see `add_item_transition`).
pub fn add_item_step(s: AddItemStage, e: AddItemEvent) -> (r: (AddItemStage, AddItemAction))
    ensures
        add_item_transition(s, e, r.0, r.1),
{
    match (s, e) {
        (
            AddItemStage::Start { column_id, title, description, assigned_to, priority, action_user },
            AddItemEvent::Requested,
        ) => (
            AddItemStage::AwaitColumn { column_id, title, description, assigned_to, priority, action_user },
            AddItemAction::ReadColumn(column_id),
        ),
        (
            AddItemStage::AwaitColumn { column_id, title, description, assigned_to, priority, action_user },
            AddItemEvent::ColumnRead(found),
        ) => {
            match found {
                None => (
                    AddItemStage::Finished,
                    AddItemAction::Fail(AppError::ResourceNotFound("Column", column_id)),
                ),
                Some(column) => {
                    let board_id = column.board_id;
                    (
                        AddItemStage::AwaitBoard { column, title, description, assigned_to, priority, action_user },
                        AddItemAction::ReadBoard(board_id),
                    )
                },
            }
        },
        (
            AddItemStage::AwaitBoard { column, title, description, assigned_to, priority, action_user },
            AddItemEvent::BoardRead(board),
        ) => {
            if board.can_edit_board(action_user) {
                let column_id = column.id;
                (
                    AddItemStage::AwaitCount { column, title, description, assigned_to, priority },
                    AddItemAction::CountItems(column_id),
                )
            } else {
                (AddItemStage::Finished, AddItemAction::Fail(AppError::InvalidCredentials))
            }
        },
        (
            AddItemStage::AwaitCount { column, title, description, assigned_to, priority },
            AddItemEvent::ItemCount(n),
        ) => {
            let r = column.new_item(n, title, description, assigned_to, priority);
            let action = match r {
                Ok((item, h)) => AddItemAction::Create(item, h),
                Err(err) => AddItemAction::Fail(AppError::Domain(err)),
            };
            (AddItemStage::Finished, action)
        },
        _ => (AddItemStage::Finished, AddItemAction::Fail(AppError::Internal("unexpected step".to_string()))),
    }
}

/// An addition writes only after the board was found to let the user change
/// it: the only step that creates starts from the stage of counting the
/// column's items, which only a board that lets the requesting user change
/// it leads to; a failure ends the addition, and an ended addition only
/// fails.
pub proof fn law_add_item_writes_only_when_permitted(
    s: AddItemStage,
    e: AddItemEvent,
    s2: AddItemStage,
    a: AddItemAction,
)
    requires
        add_item_transition(s, e, s2, a),
    ensures
        a is Create ==> s is AwaitCount,
        s2 is AwaitCount ==> (s matches AddItemStage::AwaitBoard { action_user, .. } && (
        e matches AddItemEvent::BoardRead(b) && b.spec_can_edit(action_user))),
        a is Fail ==> s2 is Finished,
        s is Finished ==> a is Fail,
{
}

/// A request on one item: changing its details, deleting it, or reading its
/// history.
pub enum ItemTask {
    /// Set the item's title, description, assignee and priority.
    UpdateDetails { title: String, description: Option<String>, assigned_to: Option<u128>, priority: ItemPriority },
    /// Delete the item.
    Delete,
    /// Read the item's history.
    History,
}

/// The role a request on an item needs: reading the history needs a reader
/// of the board; the others, a member who may change it.
pub open spec fn item_task_permitted(task: ItemTask, board: Board, user: u128) -> bool {
    match task {
        ItemTask::History => board.spec_can_view(user),
        _ => board.spec_can_edit(user),
    }
}

/// Where a request on an item stands.
pub enum ItemTaskStage {
    /// The request `task` on `item_id` by `action_user`.
    Start { item_id: u128, action_user: u128, task: ItemTask },
    /// Waiting for the item.
    AwaitItem { item_id: u128, action_user: u128, task: ItemTask },
    /// Waiting for the item's board.
    AwaitBoard { item_id: u128, item: Item, action_user: u128, task: ItemTask },
    /// The request is over.
    Finished,
}

/// What the storage answered, for a request on an item.
pub enum ItemTaskEvent {
    /// The request arrived.
    Requested,
    /// The item read, if it exists.
    ItemRead(Option<Item>),
    /// The board of the item.
    BoardRead(Board),
}

/// What to do next, for a request on an item.
pub enum ItemTaskAction {
    ReadItem(u128),
    /// Read the board with this id, which exists.
    ReadBoard(u128),
    /// Write the item with its new details; the request succeeded.
    SaveItem(Item),
    /// Delete the item with this id; the request succeeded.
    DeleteItem(u128),
    /// Read and give back the history of the item with this id.
    ReadHistory(u128),
    /// The request failed with this error; nothing is written.
    Fail(AppError),
}

/// What a permitted `task` on `item` (requested as `item_id`) does.
pub open spec fn item_task_action(task: ItemTask, item_id: u128, item: Item) -> ItemTaskAction {
    match task {
        ItemTask::UpdateDetails { title, description, assigned_to, priority } => ItemTaskAction::SaveItem(
            Item { title: title, description: description, assigned_to: assigned_to, priority: priority, ..item },
        ),
        ItemTask::Delete => ItemTaskAction::DeleteItem(item_id),
        ItemTask::History => ItemTaskAction::ReadHistory(item_id),
    }
}

/// One step of a request on an item: from stage `s` on event `e` to stage
/// `s2` with action `a`. The item, then its board are read; a user without
/// the role the request needs is refused; the request is then carried out.
/// An event that the stage does not wait for ends the request with an
/// internal error.
pub open spec fn item_task_transition(s: ItemTaskStage, e: ItemTaskEvent, s2: ItemTaskStage, a: ItemTaskAction) -> bool {
    match (s, e) {
        (ItemTaskStage::Start { item_id, action_user, task }, ItemTaskEvent::Requested) => {
            &&& s2 == (ItemTaskStage::AwaitItem { item_id, action_user, task })
            &&& a == ItemTaskAction::ReadItem(item_id)
        },
        (ItemTaskStage::AwaitItem { item_id, action_user, task }, ItemTaskEvent::ItemRead(found)) => {
            match found {
                None => s2 == ItemTaskStage::Finished && (a matches ItemTaskAction::Fail(
                    AppError::ResourceNotFound(k, i),
                ) && k@ == "Item"@ && i == item_id),
                Some(item) => {
                    &&& s2 == (ItemTaskStage::AwaitBoard { item_id, item, action_user, task })
                    &&& a == ItemTaskAction::ReadBoard(item.board_id)
                },
            }
        },
        (ItemTaskStage::AwaitBoard { item_id, item, action_user, task }, ItemTaskEvent::BoardRead(board)) => {
            &&& s2 == ItemTaskStage::Finished
            &&& if item_task_permitted(task, board, action_user) {
                a == item_task_action(task, item_id, item)
            } else {
                a matches ItemTaskAction::Fail(AppError::InvalidCredentials)
            }
        },
        _ => s2 == ItemTaskStage::Finished && (a matches ItemTaskAction::Fail(AppError::Internal(_))),
    }
}

/// One step of a request on an item (see `item_task_transition`).
pub fn item_task_step(s: ItemTaskStage, e: ItemTaskEvent) -> (r: (ItemTaskStage, ItemTaskAction))
    ensures
        item_task_transition(s, e, r.0, r.1),
{
    match (s, e) {
        (ItemTaskStage::Start { item_id, action_user, task }, ItemTaskEvent::Requested) => (
            ItemTaskStage::AwaitItem { item_id, action_user, task },
            ItemTaskAction::ReadItem(item_id),
        ),
        (ItemTaskStage::AwaitItem { item_id, action_user, task }, ItemTaskEvent::ItemRead(found)) => {
            match found {
                None => (ItemTaskStage::Finished, ItemTaskAction::Fail(AppError::ResourceNotFound("Item", item_id))),
                Some(item) => {
                    let board_id = item.board_id;
                    (ItemTaskStage::AwaitBoard { item_id, item, action_user, task }, ItemTaskAction::ReadBoard(board_id))
                },
            }
        },
        (ItemTaskStage::AwaitBoard { item_id, item, action_user, task }, ItemTaskEvent::BoardRead(board)) => {
            let action = match task {
                ItemTask::UpdateDetails { title, description, assigned_to, priority } => {
                    if board.can_edit_board(action_user) {
                        let mut item = item;
                        apply_item_details(&mut item, title, description, assigned_to, priority);
                        ItemTaskAction::SaveItem(item)
                    } else {
                        ItemTaskAction::Fail(AppError::InvalidCredentials)
                    }
                },
                ItemTask::Delete => {
                    if board.can_edit_board(action_user) {
                        ItemTaskAction::DeleteItem(item_id)
                    } else {
                        ItemTaskAction::Fail(AppError::InvalidCredentials)
                    }
                },
                ItemTask::History => {
                    if board.can_view_board(action_user) {
                        ItemTaskAction::ReadHistory(item_id)
                    } else {
                        ItemTaskAction::Fail(AppError::InvalidCredentials)
                    }
                },
            };
            (ItemTaskStage::Finished, action)
        },
        _ => (ItemTaskStage::Finished, ItemTaskAction::Fail(AppError::Internal("unexpected step".to_string()))),
    }
}

/// A request on an item writes or reads the history only once the item's
/// board was found to give the requesting user the role the request needs;
/// a failure ends the request, and an ended request only fails.
pub proof fn law_item_task_acts_only_when_permitted(
    s: ItemTaskStage,
    e: ItemTaskEvent,
    s2: ItemTaskStage,
    a: ItemTaskAction,
)
    requires
        item_task_transition(s, e, s2, a),
    ensures
        !(a is ReadItem || a is ReadBoard || a is Fail) ==> (s matches ItemTaskStage::AwaitBoard {
            action_user,
            task,
            ..
        } && (e matches ItemTaskEvent::BoardRead(b) && item_task_permitted(task, b, action_user))),
        a is Fail ==> s2 is Finished,
        s is Finished ==> a is Fail,
{
}

/// A permitted change of an item's details saves it with the title,
/// description, assignee and priority asked for and keeps its id, column,
/// board, done flag and creation time; a refused one fails with
/// `InvalidCredentials`; either way the request is over.
pub proof fn law_item_update_saves_requested_details(
    item_id: u128,
    item: Item,
    action_user: u128,
    title: String,
    description: Option<String>,
    assigned_to: Option<u128>,
    priority: ItemPriority,
    board: Board,
    s2: ItemTaskStage,
    a: ItemTaskAction,
)
    requires
        item_task_transition(
            ItemTaskStage::AwaitBoard {
                item_id,
                item,
                action_user,
                task: ItemTask::UpdateDetails { title, description, assigned_to, priority },
            },
            ItemTaskEvent::BoardRead(board),
            s2,
            a,
        ),
    ensures
        s2 is Finished,
        board.spec_can_edit(action_user) ==> (a matches ItemTaskAction::SaveItem(saved) && {
            &&& saved.title == title
            &&& saved.description == description
            &&& saved.assigned_to == assigned_to
            &&& saved.priority == priority
            &&& saved.id == item.id
            &&& saved.column_id == item.column_id
            &&& saved.board_id == item.board_id
            &&& saved.is_done == item.is_done
            &&& saved.created_at == item.created_at
        }),
        !board.spec_can_edit(action_user) ==> (a matches ItemTaskAction::Fail(AppError::InvalidCredentials)),
{
}

/// A permitted deletion deletes the item asked for, and a permitted reading
/// of the history reads that item's history; refused ones fail with
/// `InvalidCredentials`.
pub proof fn law_item_delete_and_history_act_on_the_requested_item(
    item_id: u128,
    item: Item,
    action_user: u128,
    board: Board,
    s2: ItemTaskStage,
    a: ItemTaskAction,
    s3: ItemTaskStage,
    a3: ItemTaskAction,
)
    requires
        item_task_transition(
            ItemTaskStage::AwaitBoard { item_id, item, action_user, task: ItemTask::Delete },
            ItemTaskEvent::BoardRead(board),
            s2,
            a,
        ),
        item_task_transition(
            ItemTaskStage::AwaitBoard { item_id, item, action_user, task: ItemTask::History },
            ItemTaskEvent::BoardRead(board),
            s3,
            a3,
        ),
    ensures
        board.spec_can_edit(action_user) ==> a == ItemTaskAction::DeleteItem(item_id),
        !board.spec_can_edit(action_user) ==> (a matches ItemTaskAction::Fail(AppError::InvalidCredentials)),
        board.spec_can_view(action_user) ==> a3 == ItemTaskAction::ReadHistory(item_id),
        !board.spec_can_view(action_user) ==> (a3 matches ItemTaskAction::Fail(AppError::InvalidCredentials)),
{
}

} // verus!
