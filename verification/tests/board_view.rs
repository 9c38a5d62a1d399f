use backend::adapters::persistence::board::{board_from_db, BoardDb, BoardMemberDb, BoardRoleDb};
use backend::adapters::persistence::column::{extract_db_kind_and_limit, ColumnDb};
use backend::adapters::persistence::item::{ItemDb, ItemPriorityDb};
use backend::application::app_error::{from_domain, require_found, AppError};
use backend::application::use_cases::board::{
    add_member_to_board, assemble_full_board, ensure_can_edit, ensure_can_view, require_user_by_email,
};
use backend::application::use_cases::board::{
    board_view_step, create_board_step, member_change_step, BoardViewAction, BoardViewEvent, BoardViewStage,
    CreateBoardAction, CreateBoardEvent, CreateBoardStage, MemberChangeAction, MemberChangeEvent, MemberChangeStage,
    MemberTask,
};
use backend::application::use_cases::column::{
    apply_column_update, column_task_step, ColumnTask, ColumnTaskAction, ColumnTaskEvent, ColumnTaskStage,
};
use backend::application::use_cases::get_item_metrics_query::{metrics_step, MetricsAction, MetricsEvent, MetricsStage};
use backend::application::use_cases::item::{item_task_step, ItemTask, ItemTaskAction, ItemTaskEvent, ItemTaskStage};
use backend::domain::entities::user::User;
use backend::application::use_cases::get_item_metrics_query::metrics_access;
use backend::application::use_cases::item::apply_item_details;
use backend::domain::domain_error::DomainError;
use backend::domain::entities::board::Board;
use backend::domain::entities::board_column::BoardColumn;
use backend::domain::entities::board_member::BoardMember;
use backend::domain::entities::board_role::BoardRole;
use backend::domain::entities::column_type::ColumnType;
use backend::domain::entities::item::Item;
use backend::domain::entities::item_priority::ItemPriority;

fn board() -> Board {
    Board {
        id: 1,
        title: "B".to_string(),
        description: "d".to_string(),
        owner_id: 10,
        members: vec![
            BoardMember { id: 100, user_id: 10, role: BoardRole::Owner },
            BoardMember { id: 101, user_id: 11, role: BoardRole::Viewer },
        ],
    }
}

fn col(id: u128, i: usize) -> BoardColumn {
    BoardColumn { id, board_id: 1, name: format!("c{}", id), kind: ColumnType::Done, order_index: i }
}

fn item(id: u128, column_id: u128) -> Item {
    Item {
        id,
        title: format!("i{}", id),
        description: Some("x".to_string()),
        priority: ItemPriority::High,
        assigned_to: None,
        column_id,
        board_id: 1,
        is_done: false,
        created_at: 5,
    }
}

#[test]
fn full_board_groups_items_by_column() {
    let dto = assemble_full_board(
        board(),
        1,
        vec![col(7, 0), col(8, 1), col(9, 2)],
        vec![item(1, 8), item(2, 7), item(3, 8), item(4, 99)],
    );
    assert_eq!(dto.id, 1);
    assert_eq!(dto.title, "B");
    assert_eq!(dto.members.len(), 2);
    assert_eq!(dto.members[1].role, BoardRole::Viewer);
    assert_eq!(dto.columns.len(), 3);
    assert_eq!(dto.columns[0].items.iter().map(|i| i.id).collect::<Vec<_>>(), vec![2]);
    assert_eq!(dto.columns[1].items.iter().map(|i| i.id).collect::<Vec<_>>(), vec![1, 3]);
    assert!(dto.columns[2].items.is_empty());
    assert_eq!(dto.columns[1].items[0].description.as_deref(), Some("x"));
}

#[test]
fn duplicate_column_id_shows_items_once() {
    let dto = assemble_full_board(board(), 1, vec![col(7, 0), col(7, 1)], vec![item(1, 7)]);
    assert_eq!(dto.columns[0].items.len(), 1);
    assert!(dto.columns[1].items.is_empty());
}

#[test]
fn permissions_checks() {
    let b = board();
    assert!(ensure_can_view(&b, 11).is_ok());
    assert!(matches!(ensure_can_edit(&b, 11), Err(AppError::InvalidCredentials)));
    assert!(matches!(ensure_can_view(&b, 12), Err(AppError::InvalidCredentials)));
    assert!(matches!(require_found::<Board>(None, "Board", 1), Err(AppError::ResourceNotFound("Board", 1))));
    assert!(matches!(require_user_by_email::<u8>(None, "a@b"), Err(AppError::UserEmailNotFound(e)) if e == "a@b"));
    assert!(matches!(from_domain::<()>(Err(DomainError::AlreadyInColumn)), Err(AppError::Domain(DomainError::AlreadyInColumn))));
}

#[test]
fn add_member_use_case() {
    let mut b = board();
    let m = add_member_to_board(&mut b, 10, 12, BoardRole::Editor).unwrap();
    assert_eq!((m.user_id, m.role), (12, BoardRole::Editor));
    assert_eq!(b.members.len(), 3);
    assert!(matches!(add_member_to_board(&mut b, 11, 13, BoardRole::Editor), Err(AppError::Domain(DomainError::Static(_)))));
}

#[test]
fn stored_board_and_item_conversions() {
    let b = board_from_db(BoardDb {
        id: 1,
        owner_id: 10,
        title: "t".to_string(),
        description: "d".to_string(),
        members: vec![BoardMemberDb { id: 5, user_id: 10, role: BoardRoleDb::Editor }],
    });
    assert_eq!(b.members[0].role, BoardRole::Editor);
    let i = Item::from(ItemDb {
        id: 3,
        title: "x".to_string(),
        description: None,
        priority: ItemPriorityDb::Medium,
        done: true,
        board_id: 1,
        column_id: 2,
        assigned_to: Some(4),
        created_at: 9,
    });
    assert!(i.is_done);
    assert_eq!(i.priority, ItemPriority::Medium);
    let back: BoardRoleDb = BoardRole::Viewer.into();
    assert_eq!(back, BoardRoleDb::Viewer);
}

#[test]
fn update_item_details() {
    let mut it = item(1, 7);
    apply_item_details(&mut it, "new".to_string(), None, Some(3), ItemPriority::Low);
    assert_eq!(it.title, "new");
    assert_eq!(it.description, None);
    assert_eq!(it.assigned_to, Some(3));
    assert_eq!(it.column_id, 7);
}

#[test]
fn stored_forms_round_trip() {
    for role in [BoardRole::Owner, BoardRole::Editor, BoardRole::Viewer] {
        let stored: BoardRoleDb = role.into();
        assert_eq!(BoardRole::from(stored), role);
    }
    for p in [ItemPriority::Low, ItemPriority::Medium, ItemPriority::High] {
        let stored: ItemPriorityDb = p.into();
        assert_eq!(ItemPriority::from(stored), p);
    }
    for kind in [ColumnType::Todo { limit: Some(3) }, ColumnType::Wip { limit: None }, ColumnType::Done] {
        let (k, l) = extract_db_kind_and_limit(&kind);
        let c = BoardColumn::from(ColumnDb { id: 1, name: "n".to_string(), order_index: 0, column_type: k, column_limit: l, board_id: 1 });
        assert_eq!(c.kind, kind);
    }
}

#[test]
fn metrics_access_and_column_update() {
    let b = board();
    let mut it = item(1, 7);
    assert!(matches!(metrics_access(&b, &it, 12), Err(AppError::InvalidCredentials)));
    assert!(matches!(metrics_access(&b, &it, 11), Ok(false)));
    it.is_done = true;
    assert!(matches!(metrics_access(&b, &it, 11), Ok(true)));
    let mut c = col(7, 4);
    apply_column_update(&mut c, "Doing".to_string(), ColumnType::Wip { limit: Some(2) });
    assert_eq!((c.name.as_str(), c.kind, c.order_index, c.id), ("Doing", ColumnType::Wip { limit: Some(2) }, 4, 7));
}

#[test]
fn item_task_steps_check_the_role_of_the_request() {
    let (s, a) = item_task_step(ItemTaskStage::Start { item_id: 1, action_user: 11, task: ItemTask::History }, ItemTaskEvent::Requested);
    assert!(matches!(a, ItemTaskAction::ReadItem(1)));
    let (s, a) = item_task_step(s, ItemTaskEvent::ItemRead(Some(item(1, 7))));
    assert!(matches!(a, ItemTaskAction::ReadBoard(1)));
    let (_, a) = item_task_step(s, ItemTaskEvent::BoardRead(board()));
    assert!(matches!(a, ItemTaskAction::ReadHistory(1)));
    let viewer_deletes = ItemTaskStage::AwaitBoard { item_id: 1, item: item(1, 7), action_user: 11, task: ItemTask::Delete };
    let (_, a) = item_task_step(viewer_deletes, ItemTaskEvent::BoardRead(board()));
    assert!(matches!(a, ItemTaskAction::Fail(AppError::InvalidCredentials)));
    let owner_updates = ItemTaskStage::AwaitBoard {
        item_id: 1,
        item: item(1, 7),
        action_user: 10,
        task: ItemTask::UpdateDetails { title: "n".to_string(), description: None, assigned_to: Some(11), priority: ItemPriority::Low },
    };
    match item_task_step(owner_updates, ItemTaskEvent::BoardRead(board())).1 {
        ItemTaskAction::SaveItem(it) => {
            assert_eq!((it.title.as_str(), it.assigned_to, it.column_id), ("n", Some(11), 7));
        }
        _ => panic!("expected a save"),
    }
}

#[test]
fn column_task_steps_refuse_missing_boards_and_viewers() {
    let (s, a) = column_task_step(
        ColumnTaskStage::Start { column_id: 7, action_user: 11, task: ColumnTask::Items { limit: 5, offset: 2 } },
        ColumnTaskEvent::Requested,
    );
    assert!(matches!(a, ColumnTaskAction::ReadColumn(7)));
    let (s, a) = column_task_step(s, ColumnTaskEvent::ColumnRead(Some(col(7, 0))));
    assert!(matches!(a, ColumnTaskAction::ReadExistingBoard(1)));
    let (_, a) = column_task_step(s, ColumnTaskEvent::BoardRead(Some(board())));
    assert!(matches!(a, ColumnTaskAction::ReadItems(7, 5, 2)));
    let delete = ColumnTaskStage::AwaitBoard { column_id: 7, column: col(7, 0), action_user: 11, task: ColumnTask::Delete };
    let (_, a) = column_task_step(delete, ColumnTaskEvent::BoardRead(Some(board())));
    assert!(matches!(a, ColumnTaskAction::Fail(AppError::InvalidCredentials)));
    let gone = ColumnTaskStage::AwaitBoard { column_id: 7, column: col(7, 0), action_user: 10, task: ColumnTask::Delete };
    let (_, a) = column_task_step(gone, ColumnTaskEvent::BoardRead(None));
    assert!(matches!(a, ColumnTaskAction::Fail(AppError::ResourceNotFound("Board", 1))));
}

#[test]
fn member_change_steps_check_users_then_the_board() {
    let start = MemberChangeStage::Start {
        board_id: 1,
        action_user: 10,
        task: MemberTask::Add { email: "a@b.c".to_string(), role: BoardRole::Editor },
    };
    let (s, a) = member_change_step(start, MemberChangeEvent::Requested);
    assert!(matches!(a, MemberChangeAction::CheckUser(10)));
    let (s, a) = member_change_step(s, MemberChangeEvent::UserExists(true));
    assert!(matches!(a, MemberChangeAction::FindUserByEmail(ref e) if e == "a@b.c"));
    let user = User { id: 12, username: "u".to_string(), email: "a@b.c".to_string(), password_hash: "h".to_string(), created_at: 0 };
    let (s, a) = member_change_step(s, MemberChangeEvent::UserByEmail(Some(user)));
    assert!(matches!(a, MemberChangeAction::ReadBoard(1)));
    match member_change_step(s, MemberChangeEvent::BoardRead(Some(board()))).1 {
        MemberChangeAction::AddMember(1, m) => assert_eq!((m.user_id, m.role), (12, BoardRole::Editor)),
        _ => panic!("expected an addition"),
    }
    let by_viewer = MemberChangeStage::AwaitBoard {
        board_id: 1,
        action_user: 11,
        task: MemberTask::Remove { target: 10 },
        user_id: 10,
    };
    let (_, a) = member_change_step(by_viewer, MemberChangeEvent::BoardRead(Some(board())));
    assert!(matches!(a, MemberChangeAction::Fail(AppError::Domain(_))));
    let unknown_actor = MemberChangeStage::AwaitActor { board_id: 1, action_user: 50, task: MemberTask::Remove { target: 11 } };
    let (_, a) = member_change_step(unknown_actor, MemberChangeEvent::UserExists(false));
    assert!(matches!(a, MemberChangeAction::Fail(AppError::ResourceNotFound("User", 50))));
}

#[test]
fn create_board_needs_an_existing_owner() {
    let (s, a) = create_board_step(
        CreateBoardStage::Start { title: "t".to_string(), description: "d".to_string(), owner_id: 10 },
        CreateBoardEvent::Requested,
    );
    assert!(matches!(a, CreateBoardAction::CheckUser(10)));
    match create_board_step(s, CreateBoardEvent::UserExists(true)).1 {
        CreateBoardAction::Create(b, cols) => {
            assert_eq!((b.owner_id, b.members.len(), cols.len()), (10, 1, 3));
        }
        _ => panic!("expected a creation"),
    }
    let waiting = CreateBoardStage::AwaitOwner { title: "t".to_string(), description: "d".to_string(), owner_id: 10 };
    let (_, a) = create_board_step(waiting, CreateBoardEvent::UserExists(false));
    assert!(matches!(a, CreateBoardAction::Fail(AppError::ResourceNotFound("User", 10))));
}

#[test]
fn board_view_and_metrics_steps() {
    let (s, _) = board_view_step(BoardViewStage::Start { board_id: 1, action_user: 11 }, BoardViewEvent::Requested);
    let (s, a) = board_view_step(s, BoardViewEvent::BoardRead(Some(board())));
    assert!(matches!(a, BoardViewAction::ReadColumns(1)));
    let (s, a) = board_view_step(s, BoardViewEvent::ColumnsRead(vec![col(7, 0)]));
    assert!(matches!(a, BoardViewAction::ReadTopItems(1, 10)));
    match board_view_step(s, BoardViewEvent::ItemsRead(vec![item(1, 7)])).1 {
        BoardViewAction::Show(v) => assert_eq!(v.columns[0].items.len(), 1),
        _ => panic!("expected a view"),
    }
    let (_, a) = board_view_step(BoardViewStage::AwaitBoard { board_id: 1, action_user: 12 }, BoardViewEvent::BoardRead(Some(board())));
    assert!(matches!(a, BoardViewAction::Fail(AppError::InvalidCredentials)));

    let (s, _) = metrics_step(MetricsStage::Start { item_id: 1, action_user: 11 }, MetricsEvent::Requested);
    let (s, _) = metrics_step(s, MetricsEvent::ItemRead(Some(item(1, 7))));
    let (s, a) = metrics_step(s, MetricsEvent::BoardRead(Some(board())));
    assert!(matches!(s, MetricsStage::Finished));
    assert!(matches!(a, MetricsAction::Answer(None)));
    let mut done = item(1, 7);
    done.is_done = true;
    let (s, a) = metrics_step(MetricsStage::AwaitBoard { item_id: 1, item: done, action_user: 11 }, MetricsEvent::BoardRead(Some(board())));
    assert!(matches!(a, MetricsAction::ReadHistory(1)));
    let (s, a) = metrics_step(s, MetricsEvent::HistoryRead(Vec::new()));
    assert!(matches!(a, MetricsAction::ReadColumns(1)));
    let (_, a) = metrics_step(s, MetricsEvent::ColumnsRead(vec![col(7, 0)]));
    assert!(matches!(a, MetricsAction::Answer(None)));
}
