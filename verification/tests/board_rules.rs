use backend::domain::domain_error::DomainError;
use backend::domain::entities::board::{Board, MAX_MEMBERS};
use backend::domain::entities::board_member::BoardMember;
use backend::domain::entities::board_role::BoardRole;
use backend::domain::entities::column_type::ColumnType;

fn member(id: u128, user_id: u128, role: BoardRole) -> BoardMember {
    BoardMember { id, user_id, role }
}

fn board_with(owner_id: u128, members: Vec<BoardMember>) -> Board {
    Board {
        id: 1000,
        title: "Roadmap".to_string(),
        description: "Q3".to_string(),
        owner_id,
        members,
    }
}

#[test]
fn create_with_defaults_makes_owner_and_three_columns() {
    let (board, columns) = Board::create_with_defaults("T".to_string(), "D".to_string(), 7);
    assert_eq!(board.owner_id, 7);
    assert_eq!(board.members.len(), 1);
    assert_eq!(board.members[0].user_id, 7);
    assert_eq!(board.members[0].role, BoardRole::Owner);
    assert_eq!(columns.len(), 3);
    assert_eq!(columns[0].name, "To Do");
    assert_eq!(columns[0].kind, ColumnType::Todo { limit: None });
    assert_eq!(columns[1].name, "In Progress");
    assert_eq!(columns[1].kind, ColumnType::Wip { limit: Some(5) });
    assert_eq!(columns[2].name, "Done");
    assert_eq!(columns[2].kind, ColumnType::Done);
    for (i, c) in columns.iter().enumerate() {
        assert_eq!(c.order_index, i);
        assert_eq!(c.board_id, board.id);
    }
}

#[test]
fn fresh_ids_differ() {
    let a = Board::new("a".to_string(), "".to_string(), 1);
    let b = Board::new("a".to_string(), "".to_string(), 1);
    assert_ne!(a.id, b.id);
    let m = BoardMember::new(5, BoardRole::Viewer);
    let n = BoardMember::new(5, BoardRole::Viewer);
    assert_ne!(m.id, n.id);
}

#[test]
fn add_member_by_owner_appends() {
    let mut b = board_with(1, vec![member(10, 1, BoardRole::Owner)]);
    let r = b.add_member(1, member(11, 2, BoardRole::Editor));
    assert!(r.is_ok());
    assert_eq!(b.members.len(), 2);
    assert_eq!(b.members[1].user_id, 2);
}

#[test]
fn add_member_by_owner_member_who_is_not_board_owner() {
    let mut b = board_with(1, vec![member(10, 1, BoardRole::Owner), member(11, 2, BoardRole::Owner)]);
    assert!(b.add_member(2, member(12, 3, BoardRole::Viewer)).is_ok());
}

#[test]
fn add_member_refuses_non_owner() {
    let mut b = board_with(1, vec![member(10, 1, BoardRole::Owner), member(11, 2, BoardRole::Editor)]);
    let r = b.add_member(2, member(12, 3, BoardRole::Viewer));
    assert_eq!(r, Err(DomainError::Static("Must be Owner to add members to a board")));
    assert_eq!(b.members.len(), 2);
}

#[test]
fn add_member_refuses_duplicate() {
    let mut b = board_with(1, vec![member(10, 1, BoardRole::Owner), member(11, 2, BoardRole::Viewer)]);
    let r = b.add_member(1, member(12, 2, BoardRole::Editor));
    assert_eq!(r, Err(DomainError::Static("User already is a member of this board")));
    assert_eq!(b.members.len(), 2);
}

#[test]
fn add_member_refuses_full_board() {
    let mut members = Vec::new();
    members.push(member(0, 1, BoardRole::Owner));
    for i in 1..MAX_MEMBERS {
        members.push(member(i as u128, 100 + i as u128, BoardRole::Viewer));
    }
    let mut b = board_with(1, members);
    let r = b.add_member(1, member(5000, 9999, BoardRole::Viewer));
    assert_eq!(r, Err(DomainError::BoardMemberLimitExceeded));
    assert_eq!(b.members.len(), MAX_MEMBERS);
}

#[test]
fn change_role_updates_first_membership() {
    let mut b = board_with(1, vec![member(10, 1, BoardRole::Owner), member(11, 2, BoardRole::Viewer)]);
    let r = b.change_member_role(1, 2, BoardRole::Editor);
    assert_eq!(r.map(|m| (m.id, m.user_id, m.role)).ok(), Some((11, 2, BoardRole::Editor)));
    assert_eq!(b.members[1].role, BoardRole::Editor);
}

#[test]
fn change_role_refuses_non_owner() {
    let mut b = board_with(1, vec![member(10, 1, BoardRole::Owner), member(11, 2, BoardRole::Editor)]);
    let r = b.change_member_role(2, 2, BoardRole::Owner);
    assert_eq!(r.err(), Some(DomainError::Static("Must be Owner of this board to change a members role")));
}

#[test]
fn change_role_refuses_demoting_single_board_owner() {
    let mut b = board_with(1, vec![member(10, 1, BoardRole::Owner), member(11, 2, BoardRole::Editor)]);
    let r = b.change_member_role(1, 1, BoardRole::Viewer);
    assert_eq!(r.err(), Some(DomainError::Static("Cannot leave board without owner")));
    assert_eq!(b.members[0].role, BoardRole::Owner);
}

#[test]
fn change_role_allows_demoting_board_owner_with_other_owner() {
    let mut b = board_with(1, vec![member(10, 1, BoardRole::Owner), member(11, 2, BoardRole::Owner)]);
    assert!(b.change_member_role(2, 1, BoardRole::Viewer).is_ok());
    assert_eq!(b.members[0].role, BoardRole::Viewer);
}

#[test]
fn change_role_guard_only_protects_board_owner() {
    // The guard looks at the board's owner only: an Owner member who is not
    // the board's owner can lose the last Owner role.
    let mut b = board_with(1, vec![member(10, 1, BoardRole::Editor), member(11, 2, BoardRole::Owner)]);
    assert!(b.change_member_role(1, 2, BoardRole::Viewer).is_ok());
    assert!(b.members.iter().all(|m| m.role != BoardRole::Owner));
}

#[test]
fn change_role_of_non_member() {
    let mut b = board_with(1, vec![member(10, 1, BoardRole::Owner)]);
    let r = b.change_member_role(1, 42, BoardRole::Viewer);
    assert_eq!(r.err(), Some(DomainError::MemberNotFound(42)));
}

#[test]
fn remove_member_returns_removed() {
    let mut b = board_with(1, vec![member(10, 1, BoardRole::Owner), member(11, 2, BoardRole::Viewer), member(12, 3, BoardRole::Editor)]);
    let r = b.remove_member(1, 2);
    assert_eq!(r.map(|m| m.id).ok(), Some(11));
    assert_eq!(b.members.iter().map(|m| m.user_id).collect::<Vec<_>>(), vec![1, 3]);
}

#[test]
fn remove_member_refuses_last_owner() {
    let mut b = board_with(1, vec![member(10, 1, BoardRole::Owner), member(11, 2, BoardRole::Viewer)]);
    let r = b.remove_member(1, 1);
    assert_eq!(r.err(), Some(DomainError::Static("Cannot leave board without owner")));
    assert_eq!(b.members.len(), 2);
}

#[test]
fn remove_member_refuses_non_owner_and_non_member() {
    let mut b = board_with(1, vec![member(10, 1, BoardRole::Owner), member(11, 2, BoardRole::Viewer)]);
    assert_eq!(
        b.remove_member(2, 1).err(),
        Some(DomainError::Static("Must be Owner of this board to delete a member on this board"))
    );
    assert_eq!(b.remove_member(1, 77).err(), Some(DomainError::Static("User is not a member of this board")));
}

#[test]
fn remove_second_owner_keeps_one() {
    let mut b = board_with(1, vec![member(10, 1, BoardRole::Owner), member(11, 2, BoardRole::Owner)]);
    assert!(b.remove_member(1, 2).is_ok());
    assert_eq!(b.members.iter().filter(|m| m.role == BoardRole::Owner).count(), 1);
}

#[test]
fn roles_and_permissions() {
    let b = board_with(1, vec![member(10, 1, BoardRole::Owner), member(11, 2, BoardRole::Editor), member(12, 3, BoardRole::Viewer)]);
    assert!(b.can_edit_board(1) && b.can_view_board(1));
    assert!(b.can_edit_board(2) && b.can_view_board(2));
    assert!(!b.can_edit_board(3) && b.can_view_board(3));
    assert!(!b.can_edit_board(4) && !b.can_view_board(4));
    assert!(member(1, 1, BoardRole::Owner).is_owner());
    assert!(!member(1, 1, BoardRole::Editor).is_owner());
}
