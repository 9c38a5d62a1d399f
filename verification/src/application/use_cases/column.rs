//! Column use cases: adding, reordering and changing the columns of a board.
use vstd::prelude::*;
use crate::application::app_error::AppError;
use crate::domain::entities::board::Board;
use crate::domain::entities::board_column::BoardColumn;
use crate::domain::entities::column_type::ColumnType;
use crate::domain::stable_sort::{
    SortKey, law_sorted_by_key_orders_and_keeps, lemma_sorted_of_ordered, sorted_by_key, stable_sort_by_key,
};

verus! {

/// `c` placed at position `i`.
pub open spec fn at_position(c: BoardColumn, i: int) -> BoardColumn {
    BoardColumn { order_index: i as usize, ..c }
}

/// `cs` with each column's position set to its index.
pub open spec fn renumbered(cs: Seq<BoardColumn>) -> Seq<BoardColumn> {
    Seq::new(cs.len(), |i: int| at_position(cs[i], i))
}

/// The smaller of `a` and `b`.
pub open spec fn min_index(a: int, b: int) -> int {
    if a <= b {
        a
    } else {
        b
    }
}

/// The columns `cs` in their order, with `c` inserted at position `target`
/// (past the end: last), numbered from 0.
pub open spec fn columns_after_insert(cs: Seq<BoardColumn>, c: BoardColumn, target: int) -> Seq<
    BoardColumn,
> {
    let s = sorted_by_key(cs);
    renumbered(s.insert(min_index(target, s.len() as int), c))
}

/// `p` is the first position of `s` that holds the column `column_id`.
pub open spec fn is_first_column_index(s: Seq<BoardColumn>, column_id: u128, p: int) -> bool {
    &&& 0 <= p < s.len()
    &&& s[p].id == column_id
    &&& forall|j: int| 0 <= j < p ==> #[trigger] s[j].id != column_id
}

/// The columns `cs` in their order with the one at position `p` moved to
/// position `target` (past the end: last), numbered from 0.
pub open spec fn columns_after_move(cs: Seq<BoardColumn>, p: int, target: int) -> Seq<BoardColumn> {
    let s = sorted_by_key(cs);
    let rest = s.remove(p);
    renumbered(rest.insert(min_index(target, rest.len() as int), s[p]))
}

/// Renumbering sets each column's position to its index and keeps the rest
/// of every column.
pub proof fn law_renumbered_positions(cs: Seq<BoardColumn>)
    requires
        cs.len() <= usize::MAX,
    ensures
        renumbered(cs).len() == cs.len(),
        forall|i: int|
            0 <= i < cs.len() ==> {
                &&& #[trigger] renumbered(cs)[i].order_index == i
                &&& renumbered(cs)[i].id == cs[i].id
                &&& renumbered(cs)[i].board_id == cs[i].board_id
                &&& renumbered(cs)[i].name == cs[i].name
                &&& renumbered(cs)[i].kind == cs[i].kind
            },
{
}

/// Adding a column keeps every column of the board, in their order, and
/// puts the new one at the position asked for (past the end: last); every
/// column's position is then its index.
pub proof fn law_insert_keeps_columns(cs: Seq<BoardColumn>, c: BoardColumn, target: int)
    requires
        cs.len() + 1 <= usize::MAX,
        target >= 0,
    ensures
        ({
            let r = columns_after_insert(cs, c, target);
            let t = min_index(target, cs.len() as int);
            &&& r.len() == cs.len() + 1
            &&& r[t].id == c.id
            &&& forall|i: int| 0 <= i < r.len() ==> #[trigger] r[i].order_index == i
            &&& exists|q: Seq<BoardColumn>|
                #[trigger] renumbered(q) == r && q.to_multiset() == cs.to_multiset().insert(c)
                    && q[t] == c
        }),
{
    broadcast use vstd::seq_lib::group_to_multiset_ensures;

    let s = sorted_by_key(cs);
    law_sorted_by_key_orders_and_keeps(cs);
    let t = min_index(target, cs.len() as int);
    let q = s.insert(t, c);
    assert(renumbered(q) == columns_after_insert(cs, c, target));
}

/// Moving a column keeps every column of the board and puts the moved one at
/// the position asked for (past the end: last); every column's position is
/// then its index.
pub proof fn law_move_keeps_columns(cs: Seq<BoardColumn>, column_id: u128, p: int, target: int)
    requires
        cs.len() <= usize::MAX,
        target >= 0,
        is_first_column_index(sorted_by_key(cs), column_id, p),
    ensures
        ({
            let r = columns_after_move(cs, p, target);
            let t = min_index(target, cs.len() - 1);
            &&& r.len() == cs.len()
            &&& r[t].id == column_id
            &&& forall|i: int| 0 <= i < r.len() ==> #[trigger] r[i].order_index == i
            &&& exists|q: Seq<BoardColumn>|
                #[trigger] renumbered(q) == r && q.to_multiset() == cs.to_multiset()
        }),
{
    broadcast use vstd::seq_lib::group_to_multiset_ensures;

    let s = sorted_by_key(cs);
    law_sorted_by_key_orders_and_keeps(cs);
    let rest = s.remove(p);
    let t = min_index(target, rest.len() as int);
    let q = rest.insert(t, s[p]);
    assert(s.to_multiset().count(s[p]) > 0) by {
        assert(s.contains(s[p]));
    }
    assert(q.to_multiset() =~= s.to_multiset());
    assert(renumbered(q) == columns_after_move(cs, p, target));
}

/// No two columns of `cs` have the same id.
pub open spec fn column_ids_distinct(cs: Seq<BoardColumn>) -> bool {
    forall|i: int, j: int|
        0 <= i < cs.len() && 0 <= j < cs.len() && i != j ==> #[trigger] cs[i].id != #[trigger] cs[j].id
}

/// Every column of `cs` is at the position of its index, as a save of the
/// columns leaves them.
pub open spec fn numbered_in_order(cs: Seq<BoardColumn>) -> bool {
    forall|i: int| 0 <= i < cs.len() ==> #[trigger] cs[i].order_index == i
}

/// `a` and `b` are the same column, wherever each is placed.
pub open spec fn same_column(a: BoardColumn, b: BoardColumn) -> bool {
    &&& a.id == b.id
    &&& a.board_id == b.board_id
    &&& a.name == b.name
    &&& a.kind == b.kind
}

proof fn lemma_numbered_is_sorted(cs: Seq<BoardColumn>)
    requires
        numbered_in_order(cs),
    ensures
        sorted_by_key(cs) == cs,
{
    assert forall|i: int, j: int| 0 <= i <= j < cs.len() implies #[trigger] cs[i].sort_key()
        <= #[trigger] cs[j].sort_key() by {
        assert(cs[i].order_index == i);
        assert(cs[j].order_index == j);
    }
    lemma_sorted_of_ordered(cs);
}

/// Moving a column and then moving it back to where it was restores every
/// column of a board whose columns have distinct ids and stand at the
/// positions of their indexes: the moved column is found at the position it
/// was moved to, and the second move gives back the columns as they were.
pub proof fn law_move_back_restores_columns(cs: Seq<BoardColumn>, p: int, target: int)
    requires
        cs.len() <= usize::MAX,
        numbered_in_order(cs),
        column_ids_distinct(cs),
        0 <= p < cs.len(),
        target >= 0,
    ensures
        ({
            let moved = columns_after_move(cs, p, target);
            let q = min_index(target, cs.len() - 1);
            &&& is_first_column_index(sorted_by_key(cs), cs[p].id, p)
            &&& is_first_column_index(sorted_by_key(moved), cs[p].id, q)
            &&& columns_after_move(moved, q, p) == cs
        }),
{
    let n = cs.len() as int;
    lemma_numbered_is_sorted(cs);
    let c = cs[p];
    let rest = cs.remove(p);
    let t = min_index(target, rest.len() as int);
    let ins = rest.insert(t, c);
    let moved = renumbered(ins);
    assert(moved == columns_after_move(cs, p, target));
    assert(numbered_in_order(moved));
    lemma_numbered_is_sorted(moved);
    assert forall|j: int| 0 <= j < t implies #[trigger] moved[j].id != c.id by {
        assert(moved[j].id == ins[j].id);
        if j < p {
            assert(ins[j] == cs[j]);
        } else {
            assert(ins[j] == cs[j + 1]);
        }
    }
    assert(moved[t].id == c.id);
    assert(is_first_column_index(moved, c.id, t));
    let rest2 = moved.remove(t);
    let ins2 = rest2.insert(p, moved[t]);
    let back = renumbered(ins2);
    assert(back == columns_after_move(moved, t, p));
    assert forall|i: int| 0 <= i < n implies same_column(#[trigger] ins2[i], cs[i]) by {
        if i < p {
            let k = i;
            if k < t {
                assert(ins2[i] == moved[k]);
                assert(moved[k].id == ins[k].id && ins[k] == rest[k] && rest[k] == cs[i]);
            } else {
                assert(ins2[i] == moved[k + 1]);
                assert(ins[k + 1] == rest[k]);
            }
        } else if i == p {
            assert(ins2[i] == moved[t]);
        } else {
            let k = i - 1;
            assert(ins2[i] == rest2[k]);
            if k < t {
                assert(rest2[k] == moved[k]);
                assert(ins[k] == rest[k]);
                assert(rest[k] == cs[k + 1]);
            } else {
                assert(rest2[k] == moved[k + 1]);
                assert(ins[k + 1] == rest[k]);
                assert(rest[k] == cs[k + 1]);
            }
        }
    }
    assert forall|i: int| 0 <= i < n implies #[trigger] back[i] == cs[i] by {
        assert(same_column(ins2[i], cs[i]));
        assert(cs[i].order_index == i);
    }
    assert(back =~= cs);
}

/// Adding a column shifts the columns from the position asked for (past the
/// end: last) one place right: before that position stand the board's
/// columns in their order, at it the new column, after it the rest of the
/// board's columns in their order; every column's position is its index.
pub proof fn law_insert_places_new_column(cs: Seq<BoardColumn>, c: BoardColumn, target: int)
    requires
        cs.len() + 1 <= usize::MAX,
        target >= 0,
    ensures
        ({
            let s = sorted_by_key(cs);
            let r = columns_after_insert(cs, c, target);
            let t = min_index(target, cs.len() as int);
            &&& r.len() == cs.len() + 1
            &&& same_column(r[t], c)
            &&& forall|i: int| 0 <= i < t ==> same_column(#[trigger] r[i], s[i])
            &&& forall|i: int| t < i < r.len() ==> same_column(#[trigger] r[i], s[i - 1])
            &&& forall|i: int| 0 <= i < r.len() ==> #[trigger] r[i].order_index == i
        }),
{
    law_sorted_by_key_orders_and_keeps(cs);
}

/// Moving the column at position `p` of the board's ordered columns takes it
/// out and puts it at the position asked for (past the end: last): the other
/// columns keep their order, closing the gap it left and opening one where it
/// goes; every column's position is its index.
pub proof fn law_move_places_column(cs: Seq<BoardColumn>, p: int, target: int)
    requires
        cs.len() <= usize::MAX,
        target >= 0,
        0 <= p < cs.len(),
    ensures
        ({
            let s = sorted_by_key(cs);
            let r = columns_after_move(cs, p, target);
            let t = min_index(target, cs.len() - 1);
            &&& r.len() == cs.len()
            &&& same_column(r[t], s[p])
            &&& forall|i: int|
                0 <= i < r.len() && i != t ==> {
                    let j = if i < t {
                        i
                    } else {
                        i - 1
                    };
                    same_column(#[trigger] r[i], if j < p {
                        s[j]
                    } else {
                        s[j + 1]
                    })
                }
            &&& forall|i: int| 0 <= i < r.len() ==> #[trigger] r[i].order_index == i
        }),
{
    law_sorted_by_key_orders_and_keeps(cs);
}

/// The columns of `cs` with their positions set to their indexes.
fn renumber(cs: Vec<BoardColumn>) -> (r: Vec<BoardColumn>)
    ensures
        r@ == renumbered(cs@),
{
    let ghost orig = cs@;
    let n = cs.len();
    let mut input = cs;
    let mut r: Vec<BoardColumn> = Vec::new();
    let mut i: usize = 0;
    while i < n
        invariant
            0 <= i <= n,
            n == orig.len(),
            input@ == orig.skip(i as int),
            r@ == renumbered(orig.take(i as int)),
        decreases n - i,
    {
        let mut c = input.remove(0);
        c.order_index = i;
        proof {
            assert(orig.skip(i + 1) =~= orig.skip(i as int).drop_first());
        }
        r.push(c);
        proof {
            assert(r@ =~= renumbered(orig.take(i + 1)));
        }
        i = i + 1;
    }
    proof {
        assert(orig.take(n as int) =~= orig);
    }
    r
}

/// The first position of `cs` that holds the column `column_id`, if any.
fn position_of_column(cs: &Vec<BoardColumn>, column_id: u128) -> (r: Option<usize>)
    ensures
        match r {
            Some(p) => is_first_column_index(cs@, column_id, p as int),
            None => forall|j: int| 0 <= j < cs@.len() ==> #[trigger] cs@[j].id != column_id,
        },
{
    let mut j: usize = 0;
    while j < cs.len()
        invariant
            0 <= j <= cs@.len(),
            forall|t: int| 0 <= t < j ==> #[trigger] cs@[t].id != column_id,
        decreases cs@.len() - j,
    {
        if cs[j].id == column_id {
            return Some(j);
        }
        j = j + 1;
    }
    None
}

/// A new column of `board_id` named `name` of `kind`, inserted among
/// `current_columns` at `target_index` (past the end: last): the columns in
/// their order (a stable sort by position) with the new one inserted there,
/// all renumbered from 0. Returns the new column's id and the columns.
pub fn insert_new_column(
    current_columns: Vec<BoardColumn>,
    board_id: u128,
    name: String,
    kind: ColumnType,
    target_index: usize,
) -> (r: (u128, Vec<BoardColumn>))
    ensures
        ({
            let t = min_index(target_index as int, current_columns@.len() as int);
            exists|c: BoardColumn|
                c.id == r.0 && c.board_id == board_id && c.name == name && c.kind == kind
                    && c.order_index == t && r.1@ == #[trigger] columns_after_insert(
                    current_columns@,
                    c,
                    target_index as int,
                )
        }),
{
    let ghost orig = current_columns@;
    let ghost target = target_index as int;
    let target_index = if target_index < current_columns.len() {
        target_index
    } else {
        current_columns.len()
    };
    let new_column = BoardColumn::new(board_id, name, kind, target_index);
    let new_id = new_column.id;
    let ghost c = new_column;
    proof {
        law_sorted_by_key_orders_and_keeps(current_columns@);
    }
    let mut columns = stable_sort_by_key(current_columns);
    columns.insert(target_index, new_column);
    let columns = renumber(columns);
    proof {
        assert(columns@ == columns_after_insert(orig, c, target));
    }
    (new_id, columns)
}

/// `current_columns` with the column `column_id` moved to `target_index`
/// (past the end: last): the columns in their order (a stable sort by
/// position), the first with that id taken out and put back there, all
/// renumbered from 0; `ResourceNotFound("Column", column_id)` when no
/// column has that id.
pub fn move_column_to(current_columns: Vec<BoardColumn>, column_id: u128, target_index: usize) -> (r:
    Result<Vec<BoardColumn>, AppError>)
    ensures
        ({
            let s = sorted_by_key(current_columns@);
            &&& (forall|j: int| 0 <= j < s.len() ==> #[trigger] s[j].id != column_id) ==> (r matches Err(
                AppError::ResourceNotFound(k, i),
            ) && k@ == "Column"@ && i == column_id)
            &&& (exists|j: int| 0 <= j < s.len() && #[trigger] s[j].id == column_id) ==> exists|p: int|
                #[trigger] is_first_column_index(s, column_id, p) && (r matches Ok(v) && v@
                    == columns_after_move(current_columns@, p, target_index as int))
        }),
{
    let ghost orig = current_columns@;
    let ghost target = target_index as int;
    proof {
        law_sorted_by_key_orders_and_keeps(current_columns@);
    }
    let mut columns = stable_sort_by_key(current_columns);
    let ghost s = columns@;
    let current_position = match position_of_column(&columns, column_id) {
        Some(p) => p,
        None => return Err(AppError::ResourceNotFound("Column", column_id)),
    };
    let column = columns.remove(current_position);
    let target_index = if target_index < columns.len() {
        target_index
    } else {
        columns.len()
    };
    columns.insert(target_index, column);
    let columns = renumber(columns);
    proof {
        assert(is_first_column_index(s, column_id, current_position as int));
        assert(columns@ == columns_after_move(orig, current_position as int, target));
    }
    Ok(columns)
}

/// Renames `column` and sets its kind.
pub fn apply_column_update(column: &mut BoardColumn, name: String, kind: ColumnType)
    ensures
        *final(column) == (BoardColumn { name: name, kind: kind, ..*old(column) }),
{
    column.name = name;
    column.kind = kind;
}

/// A change of the columns of a board: a new column, or a column moved.
pub enum ColumnChange {
    /// A new column named `name` of `kind` at `target_index`.
    Insert { name: String, kind: ColumnType, target_index: usize },
    /// The column `column_id` moved to `target_index`.
    Move { column_id: u128, target_index: usize },
}

/// Where a change of a board's columns stands.
pub enum ColumnLayoutStage {
    /// The request for `change` on `board_id` by `action_user`.
    Start { board_id: u128, action_user: u128, change: ColumnChange },
    /// Waiting for the board.
    AwaitBoard { board_id: u128, action_user: u128, change: ColumnChange },
    /// The user may change the board; waiting for its columns.
    AwaitColumns { board_id: u128, change: ColumnChange },
    /// The change is over.
    Finished,
}

/// What the storage answered, for a change of a board's columns.
pub enum ColumnLayoutEvent {
    /// The request arrived.
    Requested,
    /// The board read, if it exists.
    BoardRead(Option<Board>),
    /// The board's columns.
    ColumnsRead(Vec<BoardColumn>),
}

/// What to do next, for a change of a board's columns.
pub enum ColumnLayoutAction {
    ReadBoard(u128),
    ReadColumns(u128),
    /// Write all these columns; the change succeeded, and created the column
    /// with this id, if any.
    SaveAll(Vec<BoardColumn>, Option<u128>),
    /// The change failed with this error; nothing is written.
    Fail(AppError),
}

/// What applying `change` to the columns `cs` of board `board_id` gives as
/// action `a`.
pub open spec fn column_change_result(board_id: u128, change: ColumnChange, cs: Seq<BoardColumn>, a: ColumnLayoutAction) -> bool {
    match change {
        ColumnChange::Insert { name, kind, target_index } => {
            let t = min_index(target_index as int, cs.len() as int);
            a matches ColumnLayoutAction::SaveAll(saved, Some(new_id)) && exists|c: BoardColumn|
                c.id == new_id && c.board_id == board_id && c.name == name && c.kind == kind
                    && c.order_index == t && saved@ == #[trigger] columns_after_insert(
                    cs,
                    c,
                    target_index as int,
                )
        },
        ColumnChange::Move { column_id, target_index } => {
            let s = sorted_by_key(cs);
            &&& (forall|j: int| 0 <= j < s.len() ==> #[trigger] s[j].id != column_id) ==> (a matches ColumnLayoutAction::Fail(
                AppError::ResourceNotFound(k, i),
            ) && k@ == "Column"@ && i == column_id)
            &&& (exists|j: int| 0 <= j < s.len() && #[trigger] s[j].id == column_id) ==> exists|p: int|
                #[trigger] is_first_column_index(s, column_id, p) && (a matches ColumnLayoutAction::SaveAll(v, None) && v@
                    == columns_after_move(cs, p, target_index as int))
        },
    }
}

/// One step of a change of a board's columns: from stage `s` on event `e`
/// to stage `s2` with action `a`. The board is read; a user who may not
/// change it is refused before its columns are read; the columns are then
/// changed and all written. An event that the stage does not wait for ends
/// the change with an internal error.
pub open spec fn column_layout_transition(
    s: ColumnLayoutStage,
    e: ColumnLayoutEvent,
    s2: ColumnLayoutStage,
    a: ColumnLayoutAction,
) -> bool {
    match (s, e) {
        (ColumnLayoutStage::Start { board_id, action_user, change }, ColumnLayoutEvent::Requested) => {
            &&& s2 == (ColumnLayoutStage::AwaitBoard { board_id, action_user, change })
            &&& a == ColumnLayoutAction::ReadBoard(board_id)
        },
        (ColumnLayoutStage::AwaitBoard { board_id, action_user, change }, ColumnLayoutEvent::BoardRead(found)) => {
            match found {
                None => s2 == ColumnLayoutStage::Finished && (a matches ColumnLayoutAction::Fail(
                    AppError::ResourceNotFound(k, i),
                ) && k@ == "Board"@ && i == board_id),
                Some(board) => if board.spec_can_edit(action_user) {
                    &&& s2 == (ColumnLayoutStage::AwaitColumns { board_id, change })
                    &&& a == ColumnLayoutAction::ReadColumns(board_id)
                } else {
                    s2 == ColumnLayoutStage::Finished && (a matches ColumnLayoutAction::Fail(
                        AppError::InvalidCredentials,
                    ))
                },
            }
        },
        (ColumnLayoutStage::AwaitColumns { board_id, change }, ColumnLayoutEvent::ColumnsRead(cs)) => {
            s2 == ColumnLayoutStage::Finished && column_change_result(board_id, change, cs@, a)
        },
        _ => s2 == ColumnLayoutStage::Finished && (a matches ColumnLayoutAction::Fail(AppError::Internal(_))),
    }
}

/// One step of a change of a board's columns (see
/// `column_layout_transition`).
pub fn column_layout_step(s: ColumnLayoutStage, e: ColumnLayoutEvent) -> (r: (ColumnLayoutStage, ColumnLayoutAction))
    ensures
        column_layout_transition(s, e, r.0, r.1),
{
    match (s, e) {
        (ColumnLayoutStage::Start { board_id, action_user, change }, ColumnLayoutEvent::Requested) => (
            ColumnLayoutStage::AwaitBoard { board_id, action_user, change },
            ColumnLayoutAction::ReadBoard(board_id),
        ),
        (ColumnLayoutStage::AwaitBoard { board_id, action_user, change }, ColumnLayoutEvent::BoardRead(found)) => {
            match found {
                None => (
                    ColumnLayoutStage::Finished,
                    ColumnLayoutAction::Fail(AppError::ResourceNotFound("Board", board_id)),
                ),
                Some(board) => if board.can_edit_board(action_user) {
                    (ColumnLayoutStage::AwaitColumns { board_id, change }, ColumnLayoutAction::ReadColumns(board_id))
                } else {
                    (ColumnLayoutStage::Finished, ColumnLayoutAction::Fail(AppError::InvalidCredentials))
                },
            }
        },
        (ColumnLayoutStage::AwaitColumns { board_id, change }, ColumnLayoutEvent::ColumnsRead(cs)) => {
            match change {
                ColumnChange::Insert { name, kind, target_index } => {
                    let (new_id, saved) = insert_new_column(cs, board_id, name, kind, target_index);
                    (ColumnLayoutStage::Finished, ColumnLayoutAction::SaveAll(saved, Some(new_id)))
                },
                ColumnChange::Move { column_id, target_index } => {
                    match move_column_to(cs, column_id, target_index) {
                        Ok(saved) => (ColumnLayoutStage::Finished, ColumnLayoutAction::SaveAll(saved, None)),
                        Err(err) => (ColumnLayoutStage::Finished, ColumnLayoutAction::Fail(err)),
                    }
                },
            }
        },
        _ => (
            ColumnLayoutStage::Finished,
            ColumnLayoutAction::Fail(AppError::Internal("unexpected step".to_string())),
        ),
    }
}

/// A change of a board's columns writes only after the board was found to
/// let the user change it: the only step that saves starts from the stage of
/// reading the columns, which only a board that lets the requesting user
/// change it leads to; a failure ends the change, and an ended change only
/// fails.
pub proof fn law_column_layout_writes_only_when_permitted(
    s: ColumnLayoutStage,
    e: ColumnLayoutEvent,
    s2: ColumnLayoutStage,
    a: ColumnLayoutAction,
)
    requires
        column_layout_transition(s, e, s2, a),
    ensures
        a is SaveAll ==> s is AwaitColumns,
        s2 is AwaitColumns ==> (s matches ColumnLayoutStage::AwaitBoard { action_user, .. } && (
        e matches ColumnLayoutEvent::BoardRead(Some(b)) && b.spec_can_edit(action_user))),
        a is Fail ==> s2 is Finished,
        s is Finished ==> a is Fail,
{
}

/// A request on one column: changing it, deleting it, or reading a page of
/// its items.
pub enum ColumnTask {
    /// Rename the column and set its kind.
    Update { name: String, kind: ColumnType },
    /// Delete the column.
    Delete,
    /// Read at most `limit` of its items, from the `offset`-th on.
    Items { limit: usize, offset: usize },
}

/// The role a request on a column needs: reading its items needs a reader
/// of the board; the others, a member who may change it.
pub open spec fn column_task_permitted(task: ColumnTask, board: Board, user: u128) -> bool {
    match task {
        ColumnTask::Items { .. } => board.spec_can_view(user),
        _ => board.spec_can_edit(user),
    }
}

/// Where a request on a column stands.
pub enum ColumnTaskStage {
    /// The request `task` on `column_id` by `action_user`.
    Start { column_id: u128, action_user: u128, task: ColumnTask },
    /// Waiting for the column.
    AwaitColumn { column_id: u128, action_user: u128, task: ColumnTask },
    /// Waiting for the column's board.
    AwaitBoard { column_id: u128, column: BoardColumn, action_user: u128, task: ColumnTask },
    /// The request is over.
    Finished,
}

/// What the storage answered, for a request on a column.
pub enum ColumnTaskEvent {
    /// The request arrived.
    Requested,
    /// The column read, if it exists.
    ColumnRead(Option<BoardColumn>),
    /// The board of the column, if it exists.
    BoardRead(Option<Board>),
}

/// What to do next, for a request on a column.
pub enum ColumnTaskAction {
    ReadColumn(u128),
    /// Read the board with this id, which may be missing.
    ReadBoard(u128),
    /// Read the board with this id, which exists.
    ReadExistingBoard(u128),
    /// Write the changed column; the request succeeded.
    SaveColumn(BoardColumn),
    /// Delete the column with this id; the request succeeded.
    DeleteColumn(u128),
    /// Read and give back the items of the column with this id: at most
    /// the first count, from the second on.
    ReadItems(u128, usize, usize),
    /// The request failed with this error; nothing is written.
    Fail(AppError),
}

/// What a permitted `task` on `column` (requested as `column_id`) does.
pub open spec fn column_task_action(task: ColumnTask, column_id: u128, column: BoardColumn) -> ColumnTaskAction {
    match task {
        ColumnTask::Update { name, kind } => ColumnTaskAction::SaveColumn(
            BoardColumn { name: name, kind: kind, ..column },
        ),
        ColumnTask::Delete => ColumnTaskAction::DeleteColumn(column_id),
        ColumnTask::Items { limit, offset } => ColumnTaskAction::ReadItems(column_id, limit, offset),
    }
}

/// One step of a request on a column: from stage `s` on event `e` to stage
/// `s2` with action `a`. The column, then its board are read (a board that
/// reading items needs always exists); a user without the role the request
/// needs is refused; the request is then carried out. An event that the
/// stage does not wait for ends the request with an internal error.
pub open spec fn column_task_transition(
    s: ColumnTaskStage,
    e: ColumnTaskEvent,
    s2: ColumnTaskStage,
    a: ColumnTaskAction,
) -> bool {
    match (s, e) {
        (ColumnTaskStage::Start { column_id, action_user, task }, ColumnTaskEvent::Requested) => {
            &&& s2 == (ColumnTaskStage::AwaitColumn { column_id, action_user, task })
            &&& a == ColumnTaskAction::ReadColumn(column_id)
        },
        (ColumnTaskStage::AwaitColumn { column_id, action_user, task }, ColumnTaskEvent::ColumnRead(found)) => {
            match found {
                None => s2 == ColumnTaskStage::Finished && (a matches ColumnTaskAction::Fail(
                    AppError::ResourceNotFound(k, i),
                ) && k@ == "Column"@ && i == column_id),
                Some(column) => {
                    &&& s2 == (ColumnTaskStage::AwaitBoard { column_id, column, action_user, task })
                    &&& a == if task is Items {
                        ColumnTaskAction::ReadExistingBoard(column.board_id)
                    } else {
                        ColumnTaskAction::ReadBoard(column.board_id)
                    }
                },
            }
        },
        (ColumnTaskStage::AwaitBoard { column_id, column, action_user, task }, ColumnTaskEvent::BoardRead(found)) => {
            &&& s2 == ColumnTaskStage::Finished
            &&& match found {
                None => a matches ColumnTaskAction::Fail(AppError::ResourceNotFound(k, i)) && k@ == "Board"@
                    && i == column.board_id,
                Some(board) => if column_task_permitted(task, board, action_user) {
                    a == column_task_action(task, column_id, column)
                } else {
                    a matches ColumnTaskAction::Fail(AppError::InvalidCredentials)
                },
            }
        },
        _ => s2 == ColumnTaskStage::Finished && (a matches ColumnTaskAction::Fail(AppError::Internal(_))),
    }
}

/// One step of a request on a column (see `column_task_transition`).
pub fn column_task_step(s: ColumnTaskStage, e: ColumnTaskEvent) -> (r: (ColumnTaskStage, ColumnTaskAction))
    ensures
        column_task_transition(s, e, r.0, r.1),
{
    match (s, e) {
        (ColumnTaskStage::Start { column_id, action_user, task }, ColumnTaskEvent::Requested) => (
            ColumnTaskStage::AwaitColumn { column_id, action_user, task },
            ColumnTaskAction::ReadColumn(column_id),
        ),
        (ColumnTaskStage::AwaitColumn { column_id, action_user, task }, ColumnTaskEvent::ColumnRead(found)) => {
            match found {
                None => (
                    ColumnTaskStage::Finished,
                    ColumnTaskAction::Fail(AppError::ResourceNotFound("Column", column_id)),
                ),
                Some(column) => {
                    let board_id = column.board_id;
                    let action = match task {
                        ColumnTask::Items { .. } => ColumnTaskAction::ReadExistingBoard(board_id),
                        _ => ColumnTaskAction::ReadBoard(board_id),
                    };
                    (ColumnTaskStage::AwaitBoard { column_id, column, action_user, task }, action)
                },
            }
        },
        (ColumnTaskStage::AwaitBoard { column_id, column, action_user, task }, ColumnTaskEvent::BoardRead(found)) => {
            let action = match found {
                None => ColumnTaskAction::Fail(AppError::ResourceNotFound("Board", column.board_id)),
                Some(board) => match task {
                    ColumnTask::Update { name, kind } => {
                        if board.can_edit_board(action_user) {
                            let mut column = column;
                            apply_column_update(&mut column, name, kind);
                            ColumnTaskAction::SaveColumn(column)
                        } else {
                            ColumnTaskAction::Fail(AppError::InvalidCredentials)
                        }
                    },
                    ColumnTask::Delete => {
                        if board.can_edit_board(action_user) {
                            ColumnTaskAction::DeleteColumn(column_id)
                        } else {
                            ColumnTaskAction::Fail(AppError::InvalidCredentials)
                        }
                    },
                    ColumnTask::Items { limit, offset } => {
                        if board.can_view_board(action_user) {
                            ColumnTaskAction::ReadItems(column_id, limit, offset)
                        } else {
                            ColumnTaskAction::Fail(AppError::InvalidCredentials)
                        }
                    },
                },
            };
            (ColumnTaskStage::Finished, action)
        },
        _ => (
            ColumnTaskStage::Finished,
            ColumnTaskAction::Fail(AppError::Internal("unexpected step".to_string())),
        ),
    }
}

/// A request on a column writes or reads its items only once the column's
/// board was found to give the requesting user the role the request needs;
/// a failure ends the request, and an ended request only fails.
pub proof fn law_column_task_acts_only_when_permitted(
    s: ColumnTaskStage,
    e: ColumnTaskEvent,
    s2: ColumnTaskStage,
    a: ColumnTaskAction,
)
    requires
        column_task_transition(s, e, s2, a),
    ensures
        (a is SaveColumn || a is DeleteColumn || a is ReadItems) ==> (s matches ColumnTaskStage::AwaitBoard {
            action_user,
            task,
            ..
        } && (e matches ColumnTaskEvent::BoardRead(Some(b)) && column_task_permitted(task, b, action_user))),
        a is Fail ==> s2 is Finished,
        s is Finished ==> a is Fail,
{
}

/// A permitted change of a column saves it with the name and kind asked
/// for and keeps its id, board and position; a refused one fails with
/// `InvalidCredentials`; either way the request is over.
pub proof fn law_column_update_saves_requested_name_and_kind(
    column_id: u128,
    column: BoardColumn,
    action_user: u128,
    name: String,
    kind: ColumnType,
    board: Board,
    s2: ColumnTaskStage,
    a: ColumnTaskAction,
)
    requires
        column_task_transition(
            ColumnTaskStage::AwaitBoard {
                column_id,
                column,
                action_user,
                task: ColumnTask::Update { name, kind },
            },
            ColumnTaskEvent::BoardRead(Some(board)),
            s2,
            a,
        ),
    ensures
        s2 is Finished,
        board.spec_can_edit(action_user) ==> (a matches ColumnTaskAction::SaveColumn(saved) && {
            &&& saved.name == name
            &&& saved.kind == kind
            &&& saved.id == column.id
            &&& saved.board_id == column.board_id
            &&& saved.order_index == column.order_index
        }),
        !board.spec_can_edit(action_user) ==> (a matches ColumnTaskAction::Fail(AppError::InvalidCredentials)),
{
}

/// A permitted deletion deletes the column asked for, and a permitted
/// listing reads the page of its items asked for; refused ones fail with
/// `InvalidCredentials`.
pub proof fn law_column_delete_and_items_act_on_the_requested_column(
    column_id: u128,
    column: BoardColumn,
    action_user: u128,
    limit: usize,
    offset: usize,
    board: Board,
    s2: ColumnTaskStage,
    a: ColumnTaskAction,
    s3: ColumnTaskStage,
    a3: ColumnTaskAction,
)
    requires
        column_task_transition(
            ColumnTaskStage::AwaitBoard { column_id, column, action_user, task: ColumnTask::Delete },
            ColumnTaskEvent::BoardRead(Some(board)),
            s2,
            a,
        ),
        column_task_transition(
            ColumnTaskStage::AwaitBoard { column_id, column, action_user, task: ColumnTask::Items { limit, offset } },
            ColumnTaskEvent::BoardRead(Some(board)),
            s3,
            a3,
        ),
    ensures
        board.spec_can_edit(action_user) ==> a == ColumnTaskAction::DeleteColumn(column_id),
        !board.spec_can_edit(action_user) ==> (a matches ColumnTaskAction::Fail(AppError::InvalidCredentials)),
        board.spec_can_view(action_user) ==> a3 == ColumnTaskAction::ReadItems(column_id, limit, offset),
        !board.spec_can_view(action_user) ==> (a3 matches ColumnTaskAction::Fail(AppError::InvalidCredentials)),
{
}

} // verus!
