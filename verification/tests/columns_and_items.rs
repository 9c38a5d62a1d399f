use backend::application::app_error::AppError;
use backend::application::use_cases::column::{
    column_layout_step, insert_new_column, move_column_to, ColumnChange, ColumnLayoutAction, ColumnLayoutEvent,
    ColumnLayoutStage,
};
use backend::application::use_cases::item::{
    add_item_step, move_item_step, AddItemAction, AddItemEvent, AddItemStage, MoveItemAction, MoveItemEvent,
    MoveItemStage,
};
use backend::domain::entities::board::Board;
use backend::domain::entities::board_member::BoardMember;
use backend::domain::entities::board_role::BoardRole;
use backend::adapters::persistence::column::{extract_db_kind_and_limit, ColumnDb, ColumnKindDb};
use backend::domain::domain_error::DomainError;
use backend::domain::entities::board_column::BoardColumn;
use backend::domain::entities::column_type::ColumnType;
use backend::domain::entities::item::Item;
use backend::domain::entities::item_priority::ItemPriority;

fn column(id: u128, kind: ColumnType, order_index: usize) -> BoardColumn {
    BoardColumn { id, board_id: 1, name: format!("c{}", id), kind, order_index }
}

fn item_in(column_id: u128, board_id: u128) -> Item {
    Item {
        id: 500,
        title: "task".to_string(),
        description: None,
        priority: ItemPriority::Low,
        assigned_to: None,
        column_id,
        board_id,
        is_done: false,
        created_at: 0,
    }
}

#[test]
fn wip_limit_refuses_full_column() {
    let c = column(2, ColumnType::Wip { limit: Some(5) }, 1);
    let r = c.new_item(5, "t".to_string(), None, None, ItemPriority::High);
    assert_eq!(r.err(), Some(DomainError::WipLimitExceeded(5)));
    let r = c.new_item(4, "t".to_string(), Some("d".to_string()), Some(9), ItemPriority::High);
    let (item, history) = r.unwrap();
    assert_eq!(item.column_id, 2);
    assert_eq!(item.board_id, 1);
    assert_eq!(item.assigned_to, Some(9));
    assert!(!item.is_done);
    assert_eq!(history.item_id, item.id);
    assert_eq!(history.prev_column_id, None);
    assert_eq!(history.new_column_id, 2);
}

#[test]
fn todo_limit_and_unlimited_columns() {
    let c = column(1, ColumnType::Todo { limit: Some(2) }, 0);
    assert_eq!(c.new_item(3, "t".to_string(), None, None, ItemPriority::Low).err(), Some(DomainError::TodoLimitExceeded(2)));
    let c = column(1, ColumnType::Todo { limit: None }, 0);
    assert!(c.new_item(1_000_000, "t".to_string(), None, None, ItemPriority::Low).is_ok());
    let c = column(3, ColumnType::Done, 2);
    assert!(c.new_item(1_000_000, "t".to_string(), None, None, ItemPriority::Low).is_ok());
}

#[test]
fn move_item_into_done_marks_done_and_records() {
    let done = column(3, ColumnType::Done, 2);
    let mut item = item_in(2, 1);
    let h = done.move_item(0, &mut item).unwrap();
    assert_eq!(item.column_id, 3);
    assert!(item.is_done);
    assert_eq!(h.item_id, 500);
    assert_eq!(h.prev_column_id, Some(2));
    assert_eq!(h.new_column_id, 3);
    let todo = column(1, ColumnType::Todo { limit: None }, 0);
    todo.move_item(0, &mut item).unwrap();
    assert!(!item.is_done);
}

#[test]
fn move_item_refusals() {
    let wip = column(2, ColumnType::Wip { limit: Some(1) }, 1);
    let mut other_board = item_in(1, 99);
    assert_eq!(wip.move_item(0, &mut other_board).err(), Some(DomainError::Static("Item is not in the same board as column")));
    assert_eq!(other_board.column_id, 1);
    let mut item = item_in(1, 1);
    assert_eq!(wip.move_item(1, &mut item).err(), Some(DomainError::WipLimitExceeded(1)));
    assert_eq!(item.column_id, 1);
    let mut here = item_in(2, 1);
    assert_eq!(wip.move_item(0, &mut here).err(), Some(DomainError::Static("Item is already in this column")));
}

#[test]
fn assign_sets_assignee() {
    let mut item = item_in(1, 1);
    item.assign(77);
    assert_eq!(item.assigned_to, Some(77));
}

#[test]
fn insert_column_sorts_inserts_and_renumbers() {
    let cols = vec![
        column(30, ColumnType::Done, 2),
        column(10, ColumnType::Todo { limit: None }, 0),
        column(20, ColumnType::Wip { limit: None }, 1),
    ];
    let (id, out) = insert_new_column(cols, 1, "Review".to_string(), ColumnType::Wip { limit: Some(3) }, 2);
    let ids: Vec<u128> = out.iter().map(|c| c.id).collect();
    assert_eq!(ids, vec![10, 20, id, 30]);
    assert_eq!(out[2].name, "Review");
    for (i, c) in out.iter().enumerate() {
        assert_eq!(c.order_index, i);
    }
}

#[test]
fn insert_column_past_end_goes_last_and_ties_keep_order() {
    let cols = vec![column(1, ColumnType::Done, 5), column(2, ColumnType::Done, 5), column(3, ColumnType::Done, 0)];
    let (id, out) = insert_new_column(cols, 1, "x".to_string(), ColumnType::Done, 99);
    let ids: Vec<u128> = out.iter().map(|c| c.id).collect();
    assert_eq!(ids, vec![3, 1, 2, id]);
    assert_eq!(out[3].order_index, 3);
}

#[test]
fn move_column_reorders() {
    let cols = vec![
        column(10, ColumnType::Todo { limit: None }, 0),
        column(20, ColumnType::Wip { limit: None }, 1),
        column(30, ColumnType::Done, 2),
    ];
    let out = move_column_to(cols, 10, 2).unwrap();
    let ids: Vec<u128> = out.iter().map(|c| c.id).collect();
    assert_eq!(ids, vec![20, 30, 10]);
    for (i, c) in out.iter().enumerate() {
        assert_eq!(c.order_index, i);
    }
    let back = move_column_to(out, 10, 0).unwrap();
    let ids: Vec<u128> = back.iter().map(|c| c.id).collect();
    assert_eq!(ids, vec![10, 20, 30]);
    let positions: Vec<(u128, usize)> = back.iter().map(|c| (c.id, c.order_index)).collect();
    assert_eq!(positions, vec![(10, 0), (20, 1), (30, 2)]);
}

#[test]
fn move_unknown_column_is_not_found() {
    let cols = vec![column(10, ColumnType::Done, 0)];
    match move_column_to(cols, 11, 0) {
        Err(AppError::ResourceNotFound(kind, id)) => {
            assert_eq!(kind, "Column");
            assert_eq!(id, 11);
        }
        other => panic!("unexpected {:?}", other),
    }
}

#[test]
fn column_kind_storage() {
    assert_eq!(extract_db_kind_and_limit(&ColumnType::Todo { limit: Some(4) }), (ColumnKindDb::Todo, Some(4)));
    assert_eq!(extract_db_kind_and_limit(&ColumnType::Wip { limit: None }), (ColumnKindDb::Wip, None));
    assert_eq!(extract_db_kind_and_limit(&ColumnType::Done), (ColumnKindDb::Done, None));
    let row = ColumnDb { id: 4, name: "n".to_string(), order_index: 3, column_type: ColumnKindDb::Wip, column_limit: Some(7), board_id: 8 };
    let c = BoardColumn::from(row);
    assert_eq!(c.kind, ColumnType::Wip { limit: Some(7) });
    assert_eq!(c.order_index, 3);
    assert_eq!(c.board_id, 8);
    let k: ColumnKindDb = ColumnType::Done.into();
    assert_eq!(k, ColumnKindDb::Done);
}

fn board_with(user: u128, role: BoardRole) -> Board {
    Board {
        id: 1,
        title: "b".to_string(),
        description: String::new(),
        owner_id: 99,
        members: vec![BoardMember { id: 1, user_id: user, role }],
    }
}

#[test]
fn move_item_steps_read_check_count_then_save() {
    let (s, a) = move_item_step(MoveItemStage::Start { item_id: 500, column_id: 3, action_user: 7 }, MoveItemEvent::Requested);
    assert!(matches!(a, MoveItemAction::ReadItem(500)));
    let (s, a) = move_item_step(s, MoveItemEvent::ItemRead(Some(item_in(2, 1))));
    assert!(matches!(a, MoveItemAction::ReadColumn(3)));
    let (s, a) = move_item_step(s, MoveItemEvent::ColumnRead(Some(column(3, ColumnType::Done, 2))));
    assert!(matches!(a, MoveItemAction::ReadBoard(1)));
    let (s, a) = move_item_step(s, MoveItemEvent::BoardRead(board_with(7, BoardRole::Editor)));
    assert!(matches!(a, MoveItemAction::CountItems(3)));
    let (s, a) = move_item_step(s, MoveItemEvent::ItemCount(0));
    assert!(matches!(s, MoveItemStage::Finished));
    match a {
        MoveItemAction::Save(item, h) => {
            assert_eq!((item.column_id, item.is_done), (3, true));
            assert_eq!((h.item_id, h.prev_column_id, h.new_column_id), (500, Some(2), 3));
        }
        _ => panic!("expected a save"),
    }
}

#[test]
fn move_item_steps_refuse_a_viewer_before_counting() {
    let s = MoveItemStage::AwaitBoard { item: item_in(2, 1), column: column(3, ColumnType::Done, 2), action_user: 7 };
    let (s, a) = move_item_step(s, MoveItemEvent::BoardRead(board_with(7, BoardRole::Viewer)));
    assert!(matches!(s, MoveItemStage::Finished));
    assert!(matches!(a, MoveItemAction::Fail(AppError::InvalidCredentials)));
    let (_, a) = move_item_step(MoveItemStage::AwaitItem { item_id: 8, column_id: 3, action_user: 7 }, MoveItemEvent::ItemRead(None));
    assert!(matches!(a, MoveItemAction::Fail(AppError::ResourceNotFound("Item", 8))));
    let (_, a) = move_item_step(MoveItemStage::Finished, MoveItemEvent::ItemCount(1));
    assert!(matches!(a, MoveItemAction::Fail(AppError::Internal(_))));
}

#[test]
fn add_item_steps_respect_the_limit() {
    let start = AddItemStage::Start {
        column_id: 2,
        title: "t".to_string(),
        description: None,
        assigned_to: None,
        priority: ItemPriority::High,
        action_user: 7,
    };
    let (s, a) = add_item_step(start, AddItemEvent::Requested);
    assert!(matches!(a, AddItemAction::ReadColumn(2)));
    let (s, a) = add_item_step(s, AddItemEvent::ColumnRead(Some(column(2, ColumnType::Wip { limit: Some(1) }, 1))));
    assert!(matches!(a, AddItemAction::ReadBoard(1)));
    let (s, a) = add_item_step(s, AddItemEvent::BoardRead(board_with(7, BoardRole::Owner)));
    assert!(matches!(a, AddItemAction::CountItems(2)));
    let (_, a) = add_item_step(s, AddItemEvent::ItemCount(1));
    assert!(matches!(a, AddItemAction::Fail(AppError::Domain(DomainError::WipLimitExceeded(1)))));
}

#[test]
fn column_layout_steps_check_before_reading_columns() {
    let start = ColumnLayoutStage::Start {
        board_id: 1,
        action_user: 7,
        change: ColumnChange::Move { column_id: 10, target_index: 2 },
    };
    let (s, a) = column_layout_step(start, ColumnLayoutEvent::Requested);
    assert!(matches!(a, ColumnLayoutAction::ReadBoard(1)));
    let (s, a) = column_layout_step(s, ColumnLayoutEvent::BoardRead(Some(board_with(7, BoardRole::Editor))));
    assert!(matches!(a, ColumnLayoutAction::ReadColumns(1)));
    let cols = vec![
        column(10, ColumnType::Todo { limit: None }, 0),
        column(20, ColumnType::Wip { limit: None }, 1),
        column(30, ColumnType::Done, 2),
    ];
    let (_, a) = column_layout_step(s, ColumnLayoutEvent::ColumnsRead(cols));
    match a {
        ColumnLayoutAction::SaveAll(saved, None) => {
            let ids: Vec<u128> = saved.iter().map(|c| c.id).collect();
            assert_eq!(ids, vec![20, 30, 10]);
        }
        _ => panic!("expected a save"),
    }
    let viewer = ColumnLayoutStage::AwaitBoard {
        board_id: 1,
        action_user: 7,
        change: ColumnChange::Insert { name: "n".to_string(), kind: ColumnType::Done, target_index: 0 },
    };
    let (s, a) = column_layout_step(viewer, ColumnLayoutEvent::BoardRead(Some(board_with(7, BoardRole::Viewer))));
    assert!(matches!(s, ColumnLayoutStage::Finished));
    assert!(matches!(a, ColumnLayoutAction::Fail(AppError::InvalidCredentials)));
    let missing = ColumnLayoutStage::AwaitBoard {
        board_id: 4,
        action_user: 7,
        change: ColumnChange::Move { column_id: 10, target_index: 0 },
    };
    let (_, a) = column_layout_step(missing, ColumnLayoutEvent::BoardRead(None));
    assert!(matches!(a, ColumnLayoutAction::Fail(AppError::ResourceNotFound("Board", 4))));
}
