//! A column of a board, and its rules for taking items in.
use vstd::prelude::*;
use crate::domain::domain_error::{DomainError, DomainResult, is_static_error};
use crate::domain::entities::column_type::ColumnType;
use crate::domain::entities::item::{Item, msg_already_in_column, same_item_details};
use crate::domain::entities::item_history::ItemHistory;
use crate::domain::entities::item_priority::ItemPriority;
use crate::domain::stable_sort::SortKey;
use crate::ids::new_uuid;

verus! {

/// A column of a board, at position `order_index` among the board's columns.
#[derive(Debug)]
pub struct BoardColumn {
    pub id: u128,
    pub board_id: u128,
    pub name: String,
    pub kind: ColumnType,
    pub order_index: usize,
}

/// The error a column of `kind` that holds `count` items gives for one more
/// item: a To Do or WIP column with a limit refuses once it holds that many.
pub open spec fn admission_error(kind: ColumnType, count: usize) -> Option<DomainError> {
    match kind {
        ColumnType::Todo { limit: Some(limit) } => if limit <= count {
            Some(DomainError::TodoLimitExceeded(limit))
        } else {
            None
        },
        ColumnType::Wip { limit: Some(limit) } => if limit <= count {
            Some(DomainError::WipLimitExceeded(limit))
        } else {
            None
        },
        _ => None,
    }
}

/// The message of the error for moving an item from another board.
pub open spec fn msg_other_board() -> Seq<char> {
    "Item is not in the same board as column"@
}

/// A column of `kind` marks the items that enter it as done.
pub open spec fn marks_done(kind: ColumnType) -> bool {
    kind is Done
}

/// What creating an item in `column`, which holds `count` items, gives: the
/// column's admission error, or the new item, not done, in the column, with
/// the first entry of its history.
pub open spec fn new_item_post(
    column: BoardColumn,
    count: usize,
    title: String,
    description: Option<String>,
    assigned_to: Option<u128>,
    priority: ItemPriority,
    r: DomainResult<(Item, ItemHistory)>,
) -> bool {
    match admission_error(column.kind, count) {
        Some(e) => r == Err::<(Item, ItemHistory), DomainError>(e),
        None => r matches Ok((item, h)) && {
            &&& item.title == title
            &&& item.description == description
            &&& item.assigned_to == assigned_to
            &&& item.priority == priority
            &&& item.column_id == column.id
            &&& item.board_id == column.board_id
            &&& !item.is_done
            &&& h.item_id == item.id
            &&& h.prev_column_id == None::<u128>
            &&& h.new_column_id == column.id
        },
    }
}

/// What moving the item `before` into `column`, which holds `count` items,
/// gives: refused for an item of another board, by a full column, and for an
/// item already there, each leaving the item as it was (`after`); otherwise
/// the item in the column, done exactly when the column is a Done column, and
/// the entry of the move.
pub open spec fn move_item_post(
    column: BoardColumn,
    count: usize,
    before: Item,
    after: Item,
    r: DomainResult<ItemHistory>,
) -> bool {
    if before.board_id != column.board_id {
        (r matches Err(e) && is_static_error(e, msg_other_board())) && after == before
    } else {
        match admission_error(column.kind, count) {
            Some(e) => r == Err::<ItemHistory, DomainError>(e) && after == before,
            None => if before.column_id == column.id {
                (r matches Err(e) && is_static_error(e, msg_already_in_column())) && after == before
            } else {
                &&& r matches Ok(h) && h.item_id == before.id && h.prev_column_id == Some(
                    before.column_id,
                ) && h.new_column_id == column.id
                &&& after.column_id == column.id
                &&& after.is_done == marks_done(column.kind)
                &&& same_item_details(after, before)
            },
        }
    }
}

impl BoardColumn {
    /// A new column of `board_id` under a fresh id.
    pub fn new(board_id: u128, name: String, kind: ColumnType, order_index: usize) -> (c: Self)
        ensures
            c.board_id == board_id,
            c.name == name,
            c.kind == kind,
            c.order_index == order_index,
    {
        Self { id: new_uuid(), board_id, name, kind, order_index }
    }

    /// Creates an item in this column, which holds `current_item_count`
    /// items, with the first entry of its history; a full column refuses.
    pub fn new_item(
        &self,
        current_item_count: usize,
        title: String,
        description: Option<String>,
        assigned_to: Option<u128>,
        priority: ItemPriority,
    ) -> (r: DomainResult<(Item, ItemHistory)>)
        ensures
            new_item_post(*self, current_item_count, title, description, assigned_to, priority, r),
    {
        self.can_accept_new_item(current_item_count)?;
        Ok(Item::new(title, description, assigned_to, priority, self.id, self.board_id))
    }

    /// Moves `item` into this column, which holds `current_item_count` items:
    /// refused for an item of another board, by a full column, and for an
    /// item already here; refused moves change nothing.
    pub fn move_item(&self, current_item_count: usize, item: &mut Item) -> (r: DomainResult<
        ItemHistory,
    >)
        ensures
            move_item_post(*self, current_item_count, *old(item), *final(item), r),
    {
        if item.board_id != self.board_id {
            return Err(DomainError::Static("Item is not in the same board as column"));
        }
        self.can_accept_new_item(current_item_count)?;
        let is_done = match self.kind {
            ColumnType::Done => true,
            _ => false,
        };
        item.move_to_column(self.id, is_done)
    }

    fn can_accept_new_item(&self, current_items_count: usize) -> (r: DomainResult<()>)
        ensures
            match admission_error(self.kind, current_items_count) {
                Some(e) => r == Err::<(), DomainError>(e),
                None => r == Ok::<(), DomainError>(()),
            },
    {
        match self.kind {
            ColumnType::Todo { limit: Some(limit) } if limit <= current_items_count => {
                Err(DomainError::TodoLimitExceeded(limit))
            },
            ColumnType::Wip { limit: Some(limit) } if limit <= current_items_count => {
                Err(DomainError::WipLimitExceeded(limit))
            },
            _ => Ok(()),
        }
    }
}

/// A move succeeds exactly for an item of the column's board, not yet in
/// it, while the column has room; the moved item is then in the column, done
/// exactly when the column is a Done column, with every other detail kept,
/// and the entry records the move from its old column into this one. A
/// refused move leaves the item as it was.
pub proof fn law_move_item_outcome(
    column: BoardColumn,
    count: usize,
    before: Item,
    after: Item,
    r: DomainResult<ItemHistory>,
)
    requires
        move_item_post(column, count, before, after, r),
    ensures
        r is Ok <==> (before.board_id == column.board_id && admission_error(column.kind, count) is None
            && before.column_id != column.id),
        r matches Ok(h) ==> {
            &&& after.column_id == column.id
            &&& after.is_done == (column.kind == ColumnType::Done)
            &&& after.id == before.id && after.title == before.title && after.description
                == before.description && after.priority == before.priority && after.assigned_to
                == before.assigned_to && after.board_id == before.board_id && after.created_at
                == before.created_at
            &&& h.item_id == before.id && h.prev_column_id == Some(before.column_id) && h.new_column_id
                == column.id
        },
        r is Err ==> after == before,
{
}

/// Creating an item succeeds exactly while the column has room, and a full
/// To Do or WIP column refuses with its own limit error; the new
/// item then has the details asked for, is in the column and its board, and
/// is not done, and its first history entry records its entry into the
/// column from nowhere.
pub proof fn law_new_item_outcome(
    column: BoardColumn,
    count: usize,
    title: String,
    description: Option<String>,
    assigned_to: Option<u128>,
    priority: ItemPriority,
    r: DomainResult<(Item, ItemHistory)>,
)
    requires
        new_item_post(column, count, title, description, assigned_to, priority, r),
    ensures
        r is Ok <==> admission_error(column.kind, count) is None,
        r matches Err(e) ==> ((e matches DomainError::TodoLimitExceeded(l) && column.kind == (ColumnType::Todo {
            limit: Some(l),
        }) && l <= count) || (e matches DomainError::WipLimitExceeded(l) && column.kind == (ColumnType::Wip {
            limit: Some(l),
        }) && l <= count)),
        r matches Ok((item, h)) ==> {
            &&& item.title == title && item.description == description && item.assigned_to == assigned_to
                && item.priority == priority
            &&& item.column_id == column.id && item.board_id == column.board_id && !item.is_done
            &&& h.item_id == item.id && h.prev_column_id is None && h.new_column_id == column.id
        },
{
}

/// A To Do or WIP column with a limit takes an item only while it holds
/// fewer items than the limit, so it never holds more than its limit.
pub proof fn law_admitted_item_fits_limit(kind: ColumnType, count: usize)
    ensures
        admission_error(kind, count) is None ==> match kind {
            ColumnType::Todo { limit: Some(l) } => count + 1 <= l,
            ColumnType::Wip { limit: Some(l) } => count + 1 <= l,
            _ => true,
        },
{
}

/// Columns sort by their position on the board.
impl SortKey for BoardColumn {
    open spec fn sort_key(&self) -> int {
        self.order_index as int
    }

    fn key(&self) -> (k: i128) {
        self.order_index as i128
    }
}

} // verus!
