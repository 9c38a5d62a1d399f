//! Columns as the database stores them.
use vstd::prelude::*;
use vstd::std_specs::convert::FromSpecImpl;
use crate::domain::entities::board_column::BoardColumn;
use crate::domain::entities::column_type::ColumnType;

verus! {

/// The kind of a column, as stored.
#[derive(Debug, Clone, Copy, PartialEq, Eq, Structural)]
pub enum ColumnKindDb {
    Todo,
    Wip,
    Done,
}

/// A column row: its kind and limit are stored apart.
#[derive(Debug)]
pub struct ColumnDb {
    pub id: u128,
    pub name: String,
    pub order_index: i64,
    pub column_type: ColumnKindDb,
    pub column_limit: Option<i32>,
    pub board_id: u128,
}

/// The stored kind of `kind`.
pub open spec fn kind_db(kind: ColumnType) -> ColumnKindDb {
    match kind {
        ColumnType::Todo { .. } => ColumnKindDb::Todo,
        ColumnType::Wip { .. } => ColumnKindDb::Wip,
        ColumnType::Done => ColumnKindDb::Done,
    }
}

/// The stored limit of a column of `kind`: its limit cast to `i32`, none
/// for a Done column.
pub open spec fn limit_db(kind: ColumnType) -> Option<i32> {
    match kind {
        ColumnType::Todo { limit: Some(l) } => Some(l as i32),
        ColumnType::Wip { limit: Some(l) } => Some(l as i32),
        _ => None,
    }
}

/// The kind that a stored kind and limit stand for; the limit is cast to
/// `usize`.
pub open spec fn kind_from_db(kind: ColumnKindDb, limit: Option<i32>) -> ColumnType {
    let l = match limit {
        Some(v) => Some(v as usize),
        None => None,
    };
    match kind {
        ColumnKindDb::Todo => ColumnType::Todo { limit: l },
        ColumnKindDb::Wip => ColumnType::Wip { limit: l },
        ColumnKindDb::Done => ColumnType::Done,
    }
}

impl From<ColumnType> for ColumnKindDb {
    fn from(value: ColumnType) -> (r: Self) {
        match value {
            ColumnType::Todo { .. } => ColumnKindDb::Todo,
            ColumnType::Wip { .. } => ColumnKindDb::Wip,
            ColumnType::Done => ColumnKindDb::Done,
        }
    }
}

impl FromSpecImpl<ColumnType> for ColumnKindDb {
    open spec fn obeys_from_spec() -> bool {
        true
    }

    open spec fn from_spec(v: ColumnType) -> Self {
        kind_db(v)
    }
}

fn limit_to_usize(limit: Option<i32>) -> (r: Option<usize>)
    ensures
        r == (match limit {
            Some(v) => Some(v as usize),
            None => None::<usize>,
        }),
{
    match limit {
        Some(l) => Some(l as usize),
        None => None,
    }
}

impl From<ColumnDb> for BoardColumn {
    fn from(value: ColumnDb) -> (r: Self) {
        let kind = match value.column_type {
            ColumnKindDb::Todo => ColumnType::Todo { limit: limit_to_usize(value.column_limit) },
            ColumnKindDb::Wip => ColumnType::Wip { limit: limit_to_usize(value.column_limit) },
            ColumnKindDb::Done => ColumnType::Done,
        };
        Self {
            id: value.id,
            board_id: value.board_id,
            name: value.name,
            kind,
            order_index: value.order_index as usize,
        }
    }
}

impl FromSpecImpl<ColumnDb> for BoardColumn {
    open spec fn obeys_from_spec() -> bool {
        true
    }

    open spec fn from_spec(v: ColumnDb) -> Self {
        BoardColumn {
            id: v.id,
            board_id: v.board_id,
            name: v.name,
            kind: kind_from_db(v.column_type, v.column_limit),
            order_index: v.order_index as usize,
        }
    }
}

/// The stored kind and limit of a column of kind `value`.
pub fn extract_db_kind_and_limit(value: &ColumnType) -> (r: (ColumnKindDb, Option<i32>))
    ensures
        r.0 == kind_db(*value),
        r.1 == limit_db(*value),
{
    match value {
        ColumnType::Todo { limit: l } => (ColumnKindDb::Todo, match l {
            Some(v) => Some(*v as i32),
            None => None,
        }),
        ColumnType::Wip { limit: l } => (ColumnKindDb::Wip, match l {
            Some(v) => Some(*v as i32),
            None => None,
        }),
        ColumnType::Done => (ColumnKindDb::Done, None),
    }
}

/// A column kind read back from how it was stored is the kind it was, when
/// its limit fits an `i32` (a greater limit comes back cast).
pub proof fn law_column_kind_round_trip(kind: ColumnType)
    requires
        kind matches ColumnType::Todo { limit: Some(l) } ==> l <= i32::MAX,
        kind matches ColumnType::Wip { limit: Some(l) } ==> l <= i32::MAX,
    ensures
        kind_from_db(kind_db(kind), limit_db(kind)) == kind,
{
}

} // verus!
