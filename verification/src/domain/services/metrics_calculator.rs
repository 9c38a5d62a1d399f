//! Lead time and cycle time of finished items.
//!
//! Instants are microseconds since the Unix epoch; a span between two
//! instants counts its whole seconds, truncated toward zero, as
//! `chrono::TimeDelta::num_seconds` does. The metrics are given in seconds.
use vstd::prelude::*;
use crate::domain::entities::item::Item;
use crate::domain::entities::item_history::ItemHistory;
use crate::domain::stable_sort::{SortKey, key_ordered, law_sorted_by_key_orders_and_keeps, sorted_by_key, stable_sort_by_key};
use crate::ids::utc_now_micros;

verus! {

/// The metrics of a finished item, in whole seconds.
#[derive(Debug, Clone, Copy, PartialEq, Eq)]
pub struct ItemMetrics {
    /// From the item's creation to its last entry into a Done column.
    pub lead_time_seconds: i128,
    /// The time spent in WIP columns, or the lead time when that is zero.
    pub cycle_time_seconds: i128,
}

/// Computes the metrics of items from their histories.
pub struct ItemMetricsCalculator;

/// The whole seconds in a span of `micros` microseconds, truncated toward
/// zero.
pub open spec fn whole_seconds(micros: int) -> int {
    if micros >= 0 {
        micros / 1_000_000
    } else {
        -((-micros) / 1_000_000)
    }
}

/// `s` in time order; entries with equal timestamps keep their order in `s`
/// (a stable sort by timestamp).
pub open spec fn sorted_by_time(s: Seq<ItemHistory>) -> Seq<ItemHistory> {
    sorted_by_key(s)
}

/// The timestamp of the last entry of `hs` that entered one of the `done`
/// columns.
pub open spec fn last_done_timestamp(hs: Seq<ItemHistory>, done: Seq<u128>) -> Option<i64>
    decreases hs.len(),
{
    if hs.len() == 0 {
        None
    } else if done.contains(hs.last().new_column_id) {
        Some(hs.last().timestamp)
    } else {
        last_done_timestamp(hs.drop_last(), done)
    }
}

/// Walks `hs` in order: an entry into a WIP column opens a stretch of work
/// unless one is open; an entry into any other column closes the open
/// stretch and adds its whole seconds. Gives the total and the start of the
/// stretch still open, if any.
pub open spec fn wip_walk(hs: Seq<ItemHistory>, wip: Seq<u128>) -> (int, Option<i64>)
    decreases hs.len(),
{
    if hs.len() == 0 {
        (0, None)
    } else {
        let (total, start) = wip_walk(hs.drop_last(), wip);
        let h = hs.last();
        if wip.contains(h.new_column_id) {
            (total, if start is Some { start } else { Some(h.timestamp) })
        } else {
            match start {
                Some(s) => (total + whole_seconds(h.timestamp - s), None),
                None => (total, None),
            }
        }
    }
}

/// The time spent in WIP columns along `hs`, a stretch still open running
/// until `now`; the lead time `lead` when that time is zero.
pub open spec fn cycle_time(hs: Seq<ItemHistory>, wip: Seq<u128>, lead: int, now: i64) -> int {
    let (total, start) = wip_walk(hs, wip);
    let total = match start {
        Some(s) => total + whole_seconds(now - s),
        None => total,
    };
    if total == 0 {
        lead
    } else {
        total
    }
}

/// The metrics of an item created at `created_at`, done or not, whose
/// history in time order is `sorted`, measured at `now`: none for an item
/// not done or that never entered a Done column.
pub open spec fn metrics_of(
    is_done: bool,
    created_at: i64,
    sorted: Seq<ItemHistory>,
    wip: Seq<u128>,
    done: Seq<u128>,
    now: i64,
) -> Option<(int, int)> {
    if !is_done {
        None
    } else {
        match last_done_timestamp(sorted, done) {
            None => None,
            Some(d) => {
                let lead = whole_seconds(d - created_at);
                Some((lead, cycle_time(sorted, wip, lead, now)))
            },
        }
    }
}

/// `r` holds the metrics `m`, or both are absent.
pub open spec fn metrics_match(r: Option<ItemMetrics>, m: Option<(int, int)>) -> bool {
    match m {
        None => r is None,
        Some((lead, cycle)) => r matches Some(x) && x.lead_time_seconds == lead
            && x.cycle_time_seconds == cycle,
    }
}

/// On a time-ordered sequence, the last entry into a Done column is one of
/// the latest such entries.
pub proof fn lemma_last_done_is_latest(q: Seq<ItemHistory>, done: Seq<u128>)
    requires
        key_ordered(q),
    ensures
        match last_done_timestamp(q, done) {
            None => forall|i: int| 0 <= i < q.len() ==> !done.contains(#[trigger] q[i].new_column_id),
            Some(t) => {
                &&& exists|i: int|
                    0 <= i < q.len() && done.contains(#[trigger] q[i].new_column_id) && q[i].timestamp == t
                &&& forall|i: int|
                    0 <= i < q.len() && done.contains(#[trigger] q[i].new_column_id) ==> q[i].timestamp <= t
            },
        },
    decreases q.len(),
{
    if q.len() > 0 {
        let d = q.drop_last();
        assert(key_ordered(d));
        lemma_last_done_is_latest(d, done);
        let n = q.len() - 1;
        if done.contains(q.last().new_column_id) {
            assert(q[n].new_column_id == q.last().new_column_id);
            assert forall|i: int| 0 <= i < q.len() implies #[trigger] q[i].timestamp <= q[n].timestamp by {
                assert(q[i].sort_key() <= q[n].sort_key());
            }
        } else {
            assert forall|i: int| 0 <= i < d.len() implies d[i] == #[trigger] q[i] by {}
        }
    }
}

/// The instant an item is done is the latest time it entered a Done column,
/// whatever the order of the history it was given; without such an entry
/// there is none.
pub proof fn law_done_instant_is_latest(s: Seq<ItemHistory>, done: Seq<u128>)
    ensures
        match last_done_timestamp(sorted_by_time(s), done) {
            None => forall|i: int| 0 <= i < s.len() ==> !done.contains(#[trigger] s[i].new_column_id),
            Some(t) => {
                &&& exists|i: int|
                    0 <= i < s.len() && done.contains(#[trigger] s[i].new_column_id) && s[i].timestamp == t
                &&& forall|i: int|
                    0 <= i < s.len() && done.contains(#[trigger] s[i].new_column_id) ==> s[i].timestamp <= t
            },
        },
{
    broadcast use vstd::seq_lib::group_to_multiset_ensures;

    let q = sorted_by_time(s);
    law_sorted_by_key_orders_and_keeps(s);
    lemma_last_done_is_latest(q, done);
    assert forall|i: int| 0 <= i < s.len() implies q.contains(#[trigger] s[i]) by {
        assert(s.contains(s[i]));
        assert(s.to_multiset().count(s[i]) > 0);
    }
    match last_done_timestamp(q, done) {
        None => {
            assert forall|i: int| 0 <= i < s.len() implies !done.contains(#[trigger] s[i].new_column_id) by {
                assert(q.contains(s[i]));
            }
        },
        Some(t) => {
            let k = choose|k: int|
                0 <= k < q.len() && done.contains(#[trigger] q[k].new_column_id) && q[k].timestamp == t;
            assert(q.contains(q[k]));
            assert(q.to_multiset().count(q[k]) > 0);
            assert(s.contains(q[k]));
            let j = choose|j: int| 0 <= j < s.len() && s[j] == q[k];
            assert(done.contains(s[j].new_column_id) && s[j].timestamp == t);
            assert forall|i: int|
                0 <= i < s.len() && done.contains(#[trigger] s[i].new_column_id) implies s[i].timestamp <= t by {
                assert(q.contains(s[i]));
                let m = choose|m: int| 0 <= m < q.len() && q[m] == s[i];
                assert(done.contains(q[m].new_column_id));
            }
        },
    }
}

/// Along a history that never enters a WIP column no time is spent in work.
pub proof fn law_no_wip_entry_no_work(hs: Seq<ItemHistory>, wip: Seq<u128>)
    requires
        forall|i: int| 0 <= i < hs.len() ==> !wip.contains(#[trigger] hs[i].new_column_id),
    ensures
        wip_walk(hs, wip) == (0int, None::<i64>),
    decreases hs.len(),
{
    if hs.len() > 0 {
        let d = hs.drop_last();
        assert forall|i: int| 0 <= i < d.len() implies !wip.contains(#[trigger] d[i].new_column_id) by {
            assert(d[i] == hs[i]);
        }
        law_no_wip_entry_no_work(d, wip);
        assert(hs.last() == hs[hs.len() - 1]);
    }
}

/// The cycle time of an item that never entered a WIP column is its lead
/// time.
pub proof fn law_cycle_time_without_wip_is_lead_time(hs: Seq<ItemHistory>, wip: Seq<u128>, lead: int, now: i64)
    requires
        forall|i: int| 0 <= i < hs.len() ==> !wip.contains(#[trigger] hs[i].new_column_id),
    ensures
        cycle_time(hs, wip, lead, now) == lead,
{
    law_no_wip_entry_no_work(hs, wip);
}

/// An item that entered a WIP column at one instant and left it for a
/// column that is not WIP at a later one spent the whole seconds between
/// them in work, whatever the lead time and the current time; only when
/// that is no whole second does the cycle time fall back to the lead time.
pub proof fn law_one_wip_stretch(enter: ItemHistory, leave: ItemHistory, wip: Seq<u128>, lead: int, now: i64)
    requires
        wip.contains(enter.new_column_id),
        !wip.contains(leave.new_column_id),
    ensures
        ({
            let spent = whole_seconds(leave.timestamp - enter.timestamp);
            cycle_time(seq![enter, leave], wip, lead, now) == if spent == 0 {
                lead
            } else {
                spent
            }
        }),
{
    let hs = seq![enter, leave];
    let first = seq![enter];
    assert(hs.drop_last() =~= first);
    assert(first.drop_last() =~= Seq::<ItemHistory>::empty());
    assert(wip_walk(Seq::<ItemHistory>::empty(), wip) == (0int, None::<i64>));
    assert(wip_walk(first, wip) == (0int, Some(enter.timestamp)));
    assert(wip_walk(hs, wip) == (whole_seconds(leave.timestamp - enter.timestamp), None::<i64>));
}

/// The metrics of an item that is not done are none, whatever its history.
pub proof fn law_no_metrics_until_done(
    created_at: i64,
    sorted: Seq<ItemHistory>,
    wip: Seq<u128>,
    done: Seq<u128>,
    now: i64,
)
    ensures
        metrics_of(false, created_at, sorted, wip, done, now) is None,
{
}

/// `x` is one of `s`.
fn slice_contains(s: &[u128], x: u128) -> (r: bool)
    ensures
        r == s@.contains(x),
{
    let mut i: usize = 0;
    while i < s.len()
        invariant
            0 <= i <= s@.len(),
            forall|j: int| 0 <= j < i ==> s@[j] != x,
        decreases s@.len() - i,
    {
        if s[i] == x {
            assert(s@[i as int] == x);
            return true;
        }
        i = i + 1;
    }
    false
}

/// The whole seconds between instants `from` and `to`.
fn seconds_between(from: i64, to: i64) -> (r: i128)
    ensures
        r == whole_seconds(to - from),
        -0x2000_0000_0000 <= r <= 0x2000_0000_0000,
{
    let d: i128 = to as i128 - from as i128;
    if d >= 0 {
        d / 1_000_000
    } else {
        -((-d) / 1_000_000)
    }
}

/// Sorts `histories` by time, stably.
fn sort_by_time(histories: &mut Vec<ItemHistory>)
    ensures
        final(histories)@ == sorted_by_time(old(histories)@),
{
    let mut taken: Vec<ItemHistory> = Vec::new();
    std::mem::swap(&mut taken, histories);
    *histories = stable_sort_by_key(taken);
}

impl ItemMetricsCalculator {
    /// The metrics of `item` from its `histories`, measured at `now`. For an
    /// item that is done, `histories` is sorted by time (stably) first; the
    /// metrics come from its last entry into one of the `done_column_ids` and
    /// its stretches in the `wip_column_ids`. None for an item not done, or
    /// never entered a Done column.
    pub fn calculate_at(
        item: &Item,
        histories: &mut Vec<ItemHistory>,
        wip_column_ids: &[u128],
        done_column_ids: &[u128],
        now: i64,
    ) -> (r: Option<ItemMetrics>)
        ensures
            !item.is_done ==> final(histories)@ == old(histories)@,
            item.is_done ==> final(histories)@ == sorted_by_time(old(histories)@),
            metrics_match(
                r,
                metrics_of(
                    item.is_done,
                    item.created_at,
                    sorted_by_time(old(histories)@),
                    wip_column_ids@,
                    done_column_ids@,
                    now,
                ),
            ),
    {
        if !item.is_done {
            return None;
        }
        sort_by_time(histories);
        let done_timestamp = match Self::last_done_timestamp(histories, done_column_ids) {
            Some(t) => t,
            None => return None,
        };
        let lead_time_seconds = Self::calculate_lead_time(item, done_timestamp);
        let cycle_time_seconds = Self::calculate_cycle_time(
            histories,
            wip_column_ids,
            lead_time_seconds,
            now,
        );
        Some(ItemMetrics { lead_time_seconds, cycle_time_seconds })
    }

    /// As `calculate_at`, measured at the current time, which only counts for
    /// a stretch in a WIP column still open.
    pub fn calculate(
        item: &Item,
        histories: &mut Vec<ItemHistory>,
        wip_column_ids: &[u128],
        done_column_ids: &[u128],
    ) -> (r: Option<ItemMetrics>)
        ensures
            !item.is_done ==> final(histories)@ == old(histories)@,
            item.is_done ==> final(histories)@ == sorted_by_time(old(histories)@),
            exists|now: i64|
                metrics_match(
                    r,
                    #[trigger] metrics_of(
                        item.is_done,
                        item.created_at,
                        sorted_by_time(old(histories)@),
                        wip_column_ids@,
                        done_column_ids@,
                        now,
                    ),
                ),
    {
        let now = utc_now_micros();
        Self::calculate_at(item, histories, wip_column_ids, done_column_ids, now)
    }

    fn last_done_timestamp(histories: &Vec<ItemHistory>, done_column_ids: &[u128]) -> (r: Option<i64>)
        ensures
            r == last_done_timestamp(histories@, done_column_ids@),
    {
        let mut i = histories.len();
        proof {
            assert(histories@.take(i as int) =~= histories@);
        }
        while i > 0
            invariant
                0 <= i <= histories@.len(),
                last_done_timestamp(histories@, done_column_ids@) == last_done_timestamp(
                    histories@.take(i as int),
                    done_column_ids@,
                ),
            decreases i,
        {
            let h = histories[i - 1];
            proof {
                assert(histories@.take(i as int).drop_last() =~= histories@.take(i - 1));
            }
            if slice_contains(done_column_ids, h.new_column_id) {
                return Some(h.timestamp);
            }
            i = i - 1;
        }
        proof {
            assert(histories@.take(0) =~= Seq::<ItemHistory>::empty());
        }
        None
    }

    fn calculate_lead_time(item: &Item, done_timestamp: i64) -> (r: i128)
        ensures
            r == whole_seconds(done_timestamp - item.created_at),
    {
        seconds_between(item.created_at, done_timestamp)
    }

    fn calculate_cycle_time(
        histories: &Vec<ItemHistory>,
        wip_column_ids: &[u128],
        fall_back_lead_time: i128,
        now: i64,
    ) -> (r: i128)
        ensures
            r == cycle_time(histories@, wip_column_ids@, fall_back_lead_time as int, now),
    {
        let mut total_wip_seconds: i128 = 0;
        let mut wip_start: Option<i64> = None;
        let n = histories.len();
        let mut i: usize = 0;
        while i < n
            invariant
                0 <= i <= n,
                n == histories@.len(),
                (total_wip_seconds as int, wip_start) == wip_walk(histories@.take(i as int), wip_column_ids@),
                -(i as int) * 0x2000_0000_0000 <= total_wip_seconds <= (i as int) * 0x2000_0000_0000,
            decreases n - i,
        {
            let history = histories[i];
            proof {
                assert(histories@.take(i + 1).drop_last() =~= histories@.take(i as int));
            }
            if slice_contains(wip_column_ids, history.new_column_id) {
                if wip_start.is_none() {
                    wip_start = Some(history.timestamp);
                }
            } else if let Some(start) = wip_start {
                total_wip_seconds = total_wip_seconds + seconds_between(start, history.timestamp);
                wip_start = None;
            }
            i = i + 1;
        }
        proof {
            assert(histories@.take(n as int) =~= histories@);
        }
        if let Some(start) = wip_start {
            total_wip_seconds = total_wip_seconds + seconds_between(start, now);
        }
        if total_wip_seconds == 0 {
            return fall_back_lead_time;
        }
        total_wip_seconds
    }
}

} // verus!
