//! The metrics of one item, from its history and its board's columns.
use vstd::prelude::*;
use crate::application::app_error::AppError;
use crate::domain::entities::board::Board;
use crate::domain::entities::board_column::BoardColumn;
use crate::domain::entities::column_type::ColumnType;
use crate::domain::entities::item::Item;
use crate::domain::entities::item_history::ItemHistory;
use crate::domain::services::metrics_calculator::{
    ItemMetrics,
    ItemMetricsCalculator,
    metrics_match,
    metrics_of,
    sorted_by_time,
};

verus! {

/// The ids of the WIP columns of `cs` (`wip`) or of its Done columns, in
/// their order.
pub open spec fn ids_of_kind(cs: Seq<BoardColumn>, wip: bool) -> Seq<u128>
    decreases cs.len(),
{
    if cs.len() == 0 {
        Seq::empty()
    } else {
        let rest = ids_of_kind(cs.drop_last(), wip);
        let c = cs.last();
        if (wip && c.kind is Wip) || (!wip && c.kind is Done) {
            rest.push(c.id)
        } else {
            rest
        }
    }
}

/// The ids of the WIP columns (`wip`) or of the Done columns of `cs` are
/// exactly the ids of the columns of that kind.
pub proof fn law_ids_of_kind_are_that_kind(cs: Seq<BoardColumn>, wip: bool)
    ensures
        forall|x: u128|
            #[trigger] ids_of_kind(cs, wip).contains(x) <==> exists|i: int|
                0 <= i < cs.len() && cs[i].id == x && (if wip {
                    cs[i].kind is Wip
                } else {
                    cs[i].kind is Done
                }),
    decreases cs.len(),
{
    if cs.len() > 0 {
        let d = cs.drop_last();
        law_ids_of_kind_are_that_kind(d, wip);
        let c = cs.last();
        let n = cs.len() - 1;
        assert(cs[n] == c);
        assert forall|x: u128|
            #[trigger] ids_of_kind(cs, wip).contains(x) <==> exists|i: int|
                0 <= i < cs.len() && cs[i].id == x && (if wip {
                    cs[i].kind is Wip
                } else {
                    cs[i].kind is Done
                }) by {
            let rest = ids_of_kind(d, wip);
            let keep = (wip && c.kind is Wip) || (!wip && c.kind is Done);
            if keep {
                assert(ids_of_kind(cs, wip) == rest.push(c.id));
                assert(rest.push(c.id).contains(x) <==> (rest.contains(x) || x == c.id)) by {
                    if rest.push(c.id).contains(x) {
                        let j = choose|j: int| 0 <= j < rest.len() + 1 && rest.push(c.id)[j] == x;
                        if j < rest.len() {
                            assert(rest[j] == x);
                        }
                    }
                    if rest.contains(x) {
                        let j = choose|j: int| 0 <= j < rest.len() && rest[j] == x;
                        assert(rest.push(c.id)[j] == x);
                    }
                    if x == c.id {
                        assert(rest.push(c.id)[rest.len() as int] == x);
                    }
                }
            }
            if exists|i: int|
                0 <= i < cs.len() && cs[i].id == x && (if wip {
                    cs[i].kind is Wip
                } else {
                    cs[i].kind is Done
                }) {
                let i = choose|i: int|
                    0 <= i < cs.len() && cs[i].id == x && (if wip {
                        cs[i].kind is Wip
                    } else {
                        cs[i].kind is Done
                    });
                if i < n {
                    assert(d[i] == cs[i]);
                }
            }
            if exists|i: int|
                0 <= i < d.len() && d[i].id == x && (if wip {
                    d[i].kind is Wip
                } else {
                    d[i].kind is Done
                }) {
                let i = choose|i: int|
                    0 <= i < d.len() && d[i].id == x && (if wip {
                        d[i].kind is Wip
                    } else {
                        d[i].kind is Done
                    });
                assert(cs[i] == d[i]);
            }
        }
    }
}

fn collect_ids_of_kind(columns: &Vec<BoardColumn>, wip: bool) -> (r: Vec<u128>)
    ensures
        r@ == ids_of_kind(columns@, wip),
{
    let mut r: Vec<u128> = Vec::new();
    let mut i: usize = 0;
    while i < columns.len()
        invariant
            0 <= i <= columns@.len(),
            r@ == ids_of_kind(columns@.take(i as int), wip),
        decreases columns@.len() - i,
    {
        proof {
            assert(columns@.take(i + 1).drop_last() =~= columns@.take(i as int));
        }
        let keep = match columns[i].kind {
            ColumnType::Wip { .. } => wip,
            ColumnType::Done => !wip,
            _ => false,
        };
        if keep {
            r.push(columns[i].id);
        }
        i = i + 1;
    }
    proof {
        assert(columns@.take(i as int) =~= columns@);
    }
    r
}

/// Whether the metrics of `item` on `board` are to be computed for
/// `action_user`: a user who may not read the board gets
/// `InvalidCredentials`; an item not done has no metrics (false).
pub fn metrics_access(board: &Board, item: &Item, action_user: u128) -> (r: Result<bool, AppError>)
    ensures
        !board.spec_can_view(action_user) ==> r matches Err(AppError::InvalidCredentials),
        board.spec_can_view(action_user) ==> r == Ok::<bool, AppError>(item.is_done),
{
    if !board.can_view_board(action_user) {
        return Err(AppError::InvalidCredentials);
    }
    Ok(item.is_done)
}

/// The ids of the WIP columns among `columns`, in their order.
pub fn wip_column_ids(columns: &Vec<BoardColumn>) -> (r: Vec<u128>)
    ensures
        r@ == ids_of_kind(columns@, true),
{
    collect_ids_of_kind(columns, true)
}

/// The ids of the Done columns among `columns`, in their order.
pub fn done_column_ids(columns: &Vec<BoardColumn>) -> (r: Vec<u128>)
    ensures
        r@ == ids_of_kind(columns@, false),
{
    collect_ids_of_kind(columns, false)
}

/// The metrics of `item` from its `history`, with the WIP and Done columns
/// of its board's `columns`, measured at `now`.
pub fn item_metrics_at(item: &Item, history: Vec<ItemHistory>, columns: &Vec<BoardColumn>, now: i64) -> (r:
    Option<ItemMetrics>)
    ensures
        metrics_match(
            r,
            metrics_of(
                item.is_done,
                item.created_at,
                sorted_by_time(history@),
                ids_of_kind(columns@, true),
                ids_of_kind(columns@, false),
                now,
            ),
        ),
{
    let mut history = history;
    let wip_columns = wip_column_ids(columns);
    let done_columns = done_column_ids(columns);
    ItemMetricsCalculator::calculate_at(
        item,
        &mut history,
        wip_columns.as_slice(),
        done_columns.as_slice(),
        now,
    )
}

/// The metrics of `item` from its `history`, with the WIP and Done columns
/// of its board's `columns`, measured at the current time.
pub fn item_metrics(item: &Item, history: Vec<ItemHistory>, columns: &Vec<BoardColumn>) -> (r: Option<
    ItemMetrics,
>)
    ensures
        exists|now: i64|
            metrics_match(
                r,
                #[trigger] metrics_of(
                    item.is_done,
                    item.created_at,
                    sorted_by_time(history@),
                    ids_of_kind(columns@, true),
                    ids_of_kind(columns@, false),
                    now,
                ),
            ),
{
    let mut history = history;
    let wip_columns = wip_column_ids(columns);
    let done_columns = done_column_ids(columns);
    ItemMetricsCalculator::calculate(item, &mut history, wip_columns.as_slice(), done_columns.as_slice())
}

/// Where the metrics query of an item stands.
pub enum MetricsStage {
    /// The request for the metrics of `item_id` by `action_user`.
    Start { item_id: u128, action_user: u128 },
    /// Waiting for the item.
    AwaitItem { item_id: u128, action_user: u128 },
    /// Waiting for the item's board.
    AwaitBoard { item_id: u128, item: Item, action_user: u128 },
    /// The user may read the board and the item is done; waiting for its
    /// history.
    AwaitHistory { item: Item },
    /// Waiting for the columns of the item's board.
    AwaitColumns { item: Item, history: Vec<ItemHistory> },
    /// The query is over.
    Finished,
}

/// What the storage answered, for a metrics query.
pub enum MetricsEvent {
    /// The request arrived.
    Requested,
    /// The item, if it exists.
    ItemRead(Option<Item>),
    /// The item's board, if it exists.
    BoardRead(Option<Board>),
    /// The item's history.
    HistoryRead(Vec<ItemHistory>),
    /// The columns of the item's board.
    ColumnsRead(Vec<BoardColumn>),
}

/// What to do next, for a metrics query.
pub enum MetricsAction {
    ReadItem(u128),
    ReadBoard(u128),
    ReadHistory(u128),
    ReadColumns(u128),
    /// Give back these metrics (none for an item not done); the query
    /// succeeded.
    Answer(Option<ItemMetrics>),
    /// The query failed with this error.
    Fail(AppError),
}

/// One step of a metrics query: from stage `s` on event `e` to stage `s2`
/// with action `a`. The item, then its board are read; a user who may not
/// read the board is refused; an item not done has no metrics; otherwise its
/// history and its board's columns are read and the metrics computed, at the
/// current time. An event that the stage does not wait for ends the query
/// with an internal error.
pub open spec fn metrics_transition(s: MetricsStage, e: MetricsEvent, s2: MetricsStage, a: MetricsAction) -> bool {
    match (s, e) {
        (MetricsStage::Start { item_id, action_user }, MetricsEvent::Requested) => {
            &&& s2 == (MetricsStage::AwaitItem { item_id, action_user })
            &&& a == MetricsAction::ReadItem(item_id)
        },
        (MetricsStage::AwaitItem { item_id, action_user }, MetricsEvent::ItemRead(found)) => {
            match found {
                None => s2 == MetricsStage::Finished && (a matches MetricsAction::Fail(
                    AppError::ResourceNotFound(k, i),
                ) && k@ == "Item"@ && i == item_id),
                Some(item) => {
                    &&& s2 == (MetricsStage::AwaitBoard { item_id, item, action_user })
                    &&& a == MetricsAction::ReadBoard(item.board_id)
                },
            }
        },
        (MetricsStage::AwaitBoard { item_id, item, action_user }, MetricsEvent::BoardRead(found)) => {
            match found {
                None => s2 == MetricsStage::Finished && (a matches MetricsAction::Fail(
                    AppError::ResourceNotFound(k, i),
                ) && k@ == "Board"@ && i == item.board_id),
                Some(board) => if !board.spec_can_view(action_user) {
                    s2 == MetricsStage::Finished && (a matches MetricsAction::Fail(AppError::InvalidCredentials))
                } else if !item.is_done {
                    s2 == MetricsStage::Finished && a == MetricsAction::Answer(None)
                } else {
                    &&& s2 == (MetricsStage::AwaitHistory { item })
                    &&& a == MetricsAction::ReadHistory(item_id)
                },
            }
        },
        (MetricsStage::AwaitHistory { item }, MetricsEvent::HistoryRead(history)) => {
            &&& s2 == (MetricsStage::AwaitColumns { item, history })
            &&& a == MetricsAction::ReadColumns(item.board_id)
        },
        (MetricsStage::AwaitColumns { item, history }, MetricsEvent::ColumnsRead(columns)) => {
            &&& s2 == MetricsStage::Finished
            &&& a matches MetricsAction::Answer(r) && exists|now: i64|
                metrics_match(
                    r,
                    #[trigger] metrics_of(
                        item.is_done,
                        item.created_at,
                        sorted_by_time(history@),
                        ids_of_kind(columns@, true),
                        ids_of_kind(columns@, false),
                        now,
                    ),
                )
        },
        _ => s2 == MetricsStage::Finished && (a matches MetricsAction::Fail(AppError::Internal(_))),
    }
}

/// One step of a metrics query (see `metrics_transition`).
pub fn metrics_step(s: MetricsStage, e: MetricsEvent) -> (r: (MetricsStage, MetricsAction))
    ensures
        metrics_transition(s, e, r.0, r.1),
{
    match (s, e) {
        (MetricsStage::Start { item_id, action_user }, MetricsEvent::Requested) => (
            MetricsStage::AwaitItem { item_id, action_user },
            MetricsAction::ReadItem(item_id),
        ),
        (MetricsStage::AwaitItem { item_id, action_user }, MetricsEvent::ItemRead(found)) => {
            match found {
                None => (MetricsStage::Finished, MetricsAction::Fail(AppError::ResourceNotFound("Item", item_id))),
                Some(item) => {
                    let board_id = item.board_id;
                    (MetricsStage::AwaitBoard { item_id, item, action_user }, MetricsAction::ReadBoard(board_id))
                },
            }
        },
        (MetricsStage::AwaitBoard { item_id, item, action_user }, MetricsEvent::BoardRead(found)) => {
            match found {
                None => {
                    let board_id = item.board_id;
                    (MetricsStage::Finished, MetricsAction::Fail(AppError::ResourceNotFound("Board", board_id)))
                },
                Some(board) => match metrics_access(&board, &item, action_user) {
                    Err(e) => (MetricsStage::Finished, MetricsAction::Fail(e)),
                    Ok(false) => (MetricsStage::Finished, MetricsAction::Answer(None)),
                    Ok(true) => (MetricsStage::AwaitHistory { item }, MetricsAction::ReadHistory(item_id)),
                },
            }
        },
        (MetricsStage::AwaitHistory { item }, MetricsEvent::HistoryRead(history)) => {
            let board_id = item.board_id;
            (MetricsStage::AwaitColumns { item, history }, MetricsAction::ReadColumns(board_id))
        },
        (MetricsStage::AwaitColumns { item, history }, MetricsEvent::ColumnsRead(columns)) => {
            let r = item_metrics(&item, history, &columns);
            (MetricsStage::Finished, MetricsAction::Answer(r))
        },
        _ => (MetricsStage::Finished, MetricsAction::Fail(AppError::Internal("unexpected step".to_string()))),
    }
}

/// A metrics query reads an item's history, and answers with metrics, only
/// once the item's board was found to let the requesting user read it and
/// the item is done.
pub proof fn law_metrics_only_for_readers_of_done_items(
    s: MetricsStage,
    e: MetricsEvent,
    s2: MetricsStage,
    a: MetricsAction,
)
    requires
        metrics_transition(s, e, s2, a),
    ensures
        s2 is AwaitHistory ==> (s matches MetricsStage::AwaitBoard { item, action_user, .. } && item.is_done && (
        e matches MetricsEvent::BoardRead(Some(b)) && b.spec_can_view(action_user))),
        s2 is AwaitColumns ==> s is AwaitHistory,
        a matches MetricsAction::Answer(Some(_)) ==> s is AwaitColumns,
        a is Fail ==> s2 is Finished,
{
}

} // verus!
