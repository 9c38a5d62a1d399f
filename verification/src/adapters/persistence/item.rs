//! Items and their histories as the database stores them.
use vstd::prelude::*;
use vstd::std_specs::convert::FromSpecImpl;
use crate::domain::entities::item::Item;
use crate::domain::entities::item_history::ItemHistory;
use crate::domain::entities::item_priority::ItemPriority;

verus! {

/// A priority, as stored.
#[derive(Debug, Clone, Copy, PartialEq, Eq, Structural)]
pub enum ItemPriorityDb {
    Low,
    Medium,
    High,
}

/// An item row; `created_at` is in microseconds since the Unix epoch.
#[derive(Debug)]
pub struct ItemDb {
    pub id: u128,
    pub title: String,
    pub description: Option<String>,
    pub priority: ItemPriorityDb,
    pub done: bool,
    pub board_id: u128,
    pub column_id: u128,
    pub assigned_to: Option<u128>,
    pub created_at: i64,
}

/// A history row; `timestamp` is in microseconds since the Unix epoch.
#[derive(Debug, Clone, Copy, PartialEq, Eq)]
pub struct ItemHistoryDb {
    pub id: u128,
    pub timestamp: i64,
    pub prev_column_id: Option<u128>,
    pub new_column_id: u128,
    pub item_id: u128,
}

pub open spec fn priority_from_db(p: ItemPriorityDb) -> ItemPriority {
    match p {
        ItemPriorityDb::High => ItemPriority::High,
        ItemPriorityDb::Medium => ItemPriority::Medium,
        ItemPriorityDb::Low => ItemPriority::Low,
    }
}

pub open spec fn priority_db(p: ItemPriority) -> ItemPriorityDb {
    match p {
        ItemPriority::High => ItemPriorityDb::High,
        ItemPriority::Medium => ItemPriorityDb::Medium,
        ItemPriority::Low => ItemPriorityDb::Low,
    }
}

impl From<ItemPriorityDb> for ItemPriority {
    fn from(value: ItemPriorityDb) -> (r: Self) {
        match value {
            ItemPriorityDb::High => ItemPriority::High,
            ItemPriorityDb::Medium => ItemPriority::Medium,
            ItemPriorityDb::Low => ItemPriority::Low,
        }
    }
}

impl FromSpecImpl<ItemPriorityDb> for ItemPriority {
    open spec fn obeys_from_spec() -> bool {
        true
    }

    open spec fn from_spec(v: ItemPriorityDb) -> Self {
        priority_from_db(v)
    }
}

impl From<ItemPriority> for ItemPriorityDb {
    fn from(value: ItemPriority) -> (r: Self) {
        match value {
            ItemPriority::High => ItemPriorityDb::High,
            ItemPriority::Medium => ItemPriorityDb::Medium,
            ItemPriority::Low => ItemPriorityDb::Low,
        }
    }
}

impl FromSpecImpl<ItemPriority> for ItemPriorityDb {
    open spec fn obeys_from_spec() -> bool {
        true
    }

    open spec fn from_spec(v: ItemPriority) -> Self {
        priority_db(v)
    }
}

impl From<ItemDb> for Item {
    fn from(value: ItemDb) -> (r: Self) {
        Self {
            id: value.id,
            title: value.title,
            description: value.description,
            is_done: value.done,
            priority: ItemPriority::from(value.priority),
            assigned_to: value.assigned_to,
            created_at: value.created_at,
            column_id: value.column_id,
            board_id: value.board_id,
        }
    }
}

impl FromSpecImpl<ItemDb> for Item {
    open spec fn obeys_from_spec() -> bool {
        true
    }

    open spec fn from_spec(v: ItemDb) -> Self {
        Item {
            id: v.id,
            title: v.title,
            description: v.description,
            is_done: v.done,
            priority: priority_from_db(v.priority),
            assigned_to: v.assigned_to,
            created_at: v.created_at,
            column_id: v.column_id,
            board_id: v.board_id,
        }
    }
}

impl From<ItemHistoryDb> for ItemHistory {
    fn from(value: ItemHistoryDb) -> (r: Self) {
        Self {
            id: value.id,
            timestamp: value.timestamp,
            new_column_id: value.new_column_id,
            prev_column_id: value.prev_column_id,
            item_id: value.item_id,
        }
    }
}

impl FromSpecImpl<ItemHistoryDb> for ItemHistory {
    open spec fn obeys_from_spec() -> bool {
        true
    }

    open spec fn from_spec(v: ItemHistoryDb) -> Self {
        ItemHistory {
            id: v.id,
            timestamp: v.timestamp,
            new_column_id: v.new_column_id,
            prev_column_id: v.prev_column_id,
            item_id: v.item_id,
        }
    }
}

/// A priority read back from how it was stored is the priority it was.
pub proof fn law_priority_round_trip(p: ItemPriority)
    ensures
        priority_from_db(priority_db(p)) == p,
{
}

} // verus!
