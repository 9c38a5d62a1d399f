use backend::application::use_cases::get_item_metrics_query::{done_column_ids, item_metrics_at, wip_column_ids};
use backend::domain::entities::board_column::BoardColumn;
use backend::domain::entities::column_type::ColumnType;
use backend::domain::entities::item::Item;
use backend::domain::entities::item_history::ItemHistory;
use backend::domain::entities::item_priority::ItemPriority;
use backend::domain::services::metrics_calculator::ItemMetricsCalculator;

const HOUR: i64 = 3_600_000_000;
const TODO: u128 = 1;
const WIP: u128 = 2;
const REVIEW: u128 = 4;
const DONE: u128 = 3;

fn item(done: bool, created_at: i64) -> Item {
    Item {
        id: 9,
        title: "t".to_string(),
        description: None,
        priority: ItemPriority::Medium,
        assigned_to: None,
        column_id: if done { DONE } else { WIP },
        board_id: 1,
        is_done: done,
        created_at,
    }
}

fn h(id: u128, prev: Option<u128>, new: u128, at: i64) -> ItemHistory {
    ItemHistory { id, item_id: 9, prev_column_id: prev, new_column_id: new, timestamp: at }
}

#[test]
fn item_not_done_has_no_metrics_and_history_untouched() {
    let mut hs = vec![h(2, None, WIP, 5), h(1, None, TODO, 1)];
    let r = ItemMetricsCalculator::calculate_at(&item(false, 0), &mut hs, &[WIP], &[DONE], 100);
    assert!(r.is_none());
    assert_eq!(hs[0].id, 2);
}

#[test]
fn lead_and_cycle_time() {
    let mut hs = vec![
        h(1, None, TODO, 0),
        h(2, Some(TODO), WIP, HOUR),
        h(3, Some(WIP), DONE, 3 * HOUR),
    ];
    let m = ItemMetricsCalculator::calculate_at(&item(true, 0), &mut hs, &[WIP], &[DONE], 100 * HOUR).unwrap();
    assert_eq!(m.lead_time_seconds, 3 * 3600);
    assert_eq!(m.cycle_time_seconds, 2 * 3600);
}

#[test]
fn bouncing_counts_only_time_in_wip_and_last_done() {
    let mut hs = vec![
        h(5, Some(WIP), DONE, 6 * HOUR),
        h(1, None, TODO, 0),
        h(3, Some(WIP), TODO, 2 * HOUR),
        h(2, Some(TODO), WIP, HOUR),
        h(4, Some(TODO), WIP, 4 * HOUR),
        h(6, Some(DONE), DONE, 5 * HOUR),
    ];
    let m = ItemMetricsCalculator::calculate_at(&item(true, 0), &mut hs, &[WIP], &[DONE], 100 * HOUR).unwrap();
    // sorted: todo@0, wip@1, todo@2, wip@4, done@5, done@6
    assert_eq!(hs.iter().map(|x| x.id).collect::<Vec<_>>(), vec![1, 2, 3, 4, 6, 5]);
    assert_eq!(m.lead_time_seconds, 6 * 3600);
    assert_eq!(m.cycle_time_seconds, 3600 + 3600);
}

#[test]
fn two_wip_columns_in_a_row_count_from_first_entry() {
    let mut hs = vec![h(1, None, WIP, 0), h(2, Some(WIP), REVIEW, HOUR), h(3, Some(REVIEW), DONE, 3 * HOUR)];
    let m = ItemMetricsCalculator::calculate_at(&item(true, 0), &mut hs, &[WIP, REVIEW], &[DONE], 0).unwrap();
    assert_eq!(m.cycle_time_seconds, 3 * 3600);
}

#[test]
fn no_wip_time_falls_back_to_lead_time() {
    let mut hs = vec![h(1, None, TODO, 0), h(2, Some(TODO), DONE, 2 * HOUR)];
    let m = ItemMetricsCalculator::calculate_at(&item(true, HOUR / 2), &mut hs, &[WIP], &[DONE], 0).unwrap();
    assert_eq!(m.lead_time_seconds, 5400);
    assert_eq!(m.cycle_time_seconds, 5400);
}

#[test]
fn open_wip_stretch_runs_until_now() {
    let mut hs = vec![h(1, None, DONE, 0), h(2, Some(DONE), WIP, HOUR)];
    let m = ItemMetricsCalculator::calculate_at(&item(true, 0), &mut hs, &[WIP], &[DONE], 4 * HOUR).unwrap();
    assert_eq!(m.lead_time_seconds, 0);
    assert_eq!(m.cycle_time_seconds, 3 * 3600);
}

#[test]
fn never_done_entry_gives_none() {
    let mut hs = vec![h(1, None, TODO, 0), h(2, Some(TODO), WIP, HOUR)];
    assert!(ItemMetricsCalculator::calculate_at(&item(true, 0), &mut hs, &[WIP], &[DONE], 0).is_none());
}

#[test]
fn spans_truncate_toward_zero() {
    let mut hs = vec![h(1, None, DONE, 0)];
    let m = ItemMetricsCalculator::calculate_at(&item(true, 1_500_000), &mut hs, &[WIP], &[DONE], 0).unwrap();
    assert_eq!(m.lead_time_seconds, -1);
    let mut hs = vec![h(1, None, DONE, 2_999_999)];
    let m = ItemMetricsCalculator::calculate_at(&item(true, 0), &mut hs, &[WIP], &[DONE], 0).unwrap();
    assert_eq!(m.lead_time_seconds, 2);
}

#[test]
fn metrics_from_board_columns() {
    let cols = vec![
        BoardColumn { id: TODO, board_id: 1, name: "To Do".to_string(), kind: ColumnType::Todo { limit: None }, order_index: 0 },
        BoardColumn { id: WIP, board_id: 1, name: "Doing".to_string(), kind: ColumnType::Wip { limit: Some(5) }, order_index: 1 },
        BoardColumn { id: DONE, board_id: 1, name: "Done".to_string(), kind: ColumnType::Done, order_index: 2 },
    ];
    assert_eq!(wip_column_ids(&cols), vec![WIP]);
    assert_eq!(done_column_ids(&cols), vec![DONE]);
    let hs = vec![h(1, None, TODO, 0), h(2, Some(TODO), WIP, HOUR), h(3, Some(WIP), DONE, 2 * HOUR)];
    let m = item_metrics_at(&item(true, 0), hs, &cols, 0).unwrap();
    assert_eq!((m.lead_time_seconds, m.cycle_time_seconds), (7200, 3600));
}

#[test]
fn calculate_with_clock_for_closed_stretches() {
    let mut hs = vec![h(1, None, WIP, 0), h(2, Some(WIP), DONE, HOUR)];
    let m = ItemMetricsCalculator::calculate(&item(true, 0), &mut hs, &[WIP], &[DONE]).unwrap();
    assert_eq!((m.lead_time_seconds, m.cycle_time_seconds), (3600, 3600));
}

#[test]
fn histories_with_equal_times_keep_their_order() {
    let mut hs = vec![h(1, None, TODO, 7), h(2, Some(TODO), WIP, 3), h(3, Some(WIP), DONE, 7), h(4, None, WIP, 3)];
    let _ = ItemMetricsCalculator::calculate_at(&item(true, 0), &mut hs, &[WIP], &[DONE], 10);
    let ids: Vec<u128> = hs.iter().map(|x| x.id).collect();
    assert_eq!(ids, vec![2, 4, 1, 3]);
}
