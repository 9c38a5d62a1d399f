//! One entry of an item's audit trail: a move between columns.
use vstd::prelude::*;
use crate::domain::stable_sort::SortKey;
use crate::ids::{new_uuid, utc_now_micros};

verus! {

/// An item entered column `new_column_id`, coming from `prev_column_id`
/// (`None` when the item was created), at `timestamp` (microseconds since
/// the Unix epoch).
#[derive(Debug, Clone, Copy, PartialEq, Eq)]
pub struct ItemHistory {
    pub id: u128,
    pub item_id: u128,
    pub prev_column_id: Option<u128>,
    pub new_column_id: u128,
    pub timestamp: i64,
}

impl ItemHistory {
    /// A new entry under a fresh id, stamped with the current time.
    pub fn new(item_id: u128, prev_column_id: Option<u128>, new_column_id: u128) -> (h: Self)
        ensures
            h.item_id == item_id,
            h.prev_column_id == prev_column_id,
            h.new_column_id == new_column_id,
    {
        Self { id: new_uuid(), item_id, prev_column_id, new_column_id, timestamp: utc_now_micros() }
    }
}

/// Histories sort by their timestamps.
impl SortKey for ItemHistory {
    open spec fn sort_key(&self) -> int {
        self.timestamp as int
    }

    fn key(&self) -> (k: i128) {
        self.timestamp as i128
    }
}

} // verus!
