//! A task on a board.
use vstd::prelude::*;
use crate::domain::domain_error::{DomainError, DomainResult, is_static_error};
use crate::domain::entities::item_history::ItemHistory;
use crate::domain::entities::item_priority::ItemPriority;
use crate::ids::{new_uuid, utc_now_micros};

verus! {

/// A task in one column of a board. `is_done` tells whether it last entered a
/// Done column; `created_at` is in microseconds since the Unix epoch.
#[derive(Debug)]
pub struct Item {
    pub id: u128,
    pub title: String,
    pub description: Option<String>,
    pub priority: ItemPriority,
    pub assigned_to: Option<u128>,
    pub column_id: u128,
    pub board_id: u128,
    pub is_done: bool,
    pub created_at: i64,
}

/// The message of the error for a move into the item's own column.
pub open spec fn msg_already_in_column() -> Seq<char> {
    "Item is already in this column"@
}

/// `a` and `b` differ at most in their column and done flag.
pub open spec fn same_item_details(a: Item, b: Item) -> bool {
    &&& a.id == b.id
    &&& a.title == b.title
    &&& a.description == b.description
    &&& a.priority == b.priority
    &&& a.assigned_to == b.assigned_to
    &&& a.board_id == b.board_id
    &&& a.created_at == b.created_at
}

impl Item {
    /// A new item, not done, in `column_id` of `board_id`, under a fresh id and
    /// created now, with the first entry of its history: it entered
    /// `column_id` from nowhere.
    pub fn new(
        title: String,
        description: Option<String>,
        assigned_to: Option<u128>,
        priority: ItemPriority,
        column_id: u128,
        board_id: u128,
    ) -> (r: (Self, ItemHistory))
        ensures
            r.0.title == title,
            r.0.description == description,
            r.0.assigned_to == assigned_to,
            r.0.priority == priority,
            r.0.column_id == column_id,
            r.0.board_id == board_id,
            !r.0.is_done,
            r.1.item_id == r.0.id,
            r.1.prev_column_id == None::<u128>,
            r.1.new_column_id == column_id,
    {
        let item = Self {
            id: new_uuid(),
            title,
            description,
            priority,
            assigned_to,
            column_id,
            board_id,
            is_done: false,
            created_at: utc_now_micros(),
        };
        let first_history = ItemHistory::new(item.id, None, item.column_id);
        (item, first_history)
    }

    /// Moves the item into `column_id`, which marks it done exactly when
    /// `is_done`, and records the move; a move into the column it is in is
    /// refused and changes nothing.
    pub fn move_to_column(&mut self, column_id: u128, is_done: bool) -> (r: DomainResult<ItemHistory>)
        ensures
            old(self).column_id == column_id ==> {
                &&& r matches Err(e) && is_static_error(e, msg_already_in_column())
                &&& *final(self) == *old(self)
            },
            old(self).column_id != column_id ==> {
                &&& r matches Ok(h) && h.item_id == old(self).id && h.prev_column_id == Some(
                    old(self).column_id,
                ) && h.new_column_id == column_id
                &&& final(self).column_id == column_id
                &&& final(self).is_done == is_done
                &&& same_item_details(*final(self), *old(self))
            },
    {
        if self.column_id == column_id {
            return Err(DomainError::Static("Item is already in this column"));
        }
        let prev_column = self.column_id;
        self.column_id = column_id;
        self.is_done = is_done;
        Ok(ItemHistory::new(self.id, Some(prev_column), self.column_id))
    }

    /// Assigns the item to `user`.
    pub fn assign(&mut self, user: u128)
        ensures
            *final(self) == (Item { assigned_to: Some(user), ..*old(self) }),
    {
        self.assigned_to = Some(user);
    }
}

} // verus!
