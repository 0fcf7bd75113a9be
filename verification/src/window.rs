//! The fixed window as the counter store keeps it.
//!
//! The store holds one record for each key that was seen within its current
//! window: a count and the time at which the record expires. This module
//! states what the tracking transaction does to such a store as one step
//! (`commands` derives that step from the three commands) and proves what
//! follows for the callers: how the counts run within a window, that the
//! window starts afresh once it has ended, and that callers which race each
//! other never share a count.

use vstd::prelude::*;
use vstd::set_lib::{lemma_int_range, lemma_len_subset, lemma_subset_equality, set_int_range};

verus! {

/// The record of one key: how often it was seen in its window, and when the
/// window ends. A record that was made without an expiry lives on for good.
pub struct CounterRecord {
    pub count: nat,
    pub expires_at: Option<int>,
}

/// What the store holds, by key.
pub type CounterStore = Map<Seq<u8>, CounterRecord>;

/// Whether `key` has a record at the time `now` that has not yet expired.
pub open spec fn is_live(store: CounterStore, key: Seq<u8>, now: int) -> bool {
    store.dom().contains(key) && match store[key].expires_at {
        Some(at) => now < at,
        None => true,
    }
}

/// The seconds that a record has left to live at the time `now`; -1 for a
/// record without an expiry.
pub open spec fn time_to_live(record: CounterRecord, now: int) -> int {
    match record.expires_at {
        Some(at) => at - now,
        None => -1,
    }
}

/// What one run of the tracking transaction leaves behind: the store after
/// it, and the two replies, the new count and the seconds left to live.
pub struct Counted {
    pub store: CounterStore,
    pub count: nat,
    pub ttl: int,
}

/// The tracking transaction for `key` with a window of `period` seconds, run
/// at the time `now`, as one step:
///
/// 1. a key without a live record gets one, with a count of zero and an
///    expiry of `period` from now; a live record is left as it is;
/// 2. the count goes up by one;
/// 3. the time left until the expiry is read.
pub open spec fn counted(store: CounterStore, key: Seq<u8>, period: nat, now: int) -> Counted {
    let created = if is_live(store, key, now) {
        store[key]
    } else {
        CounterRecord { count: 0, expires_at: Some(now + period) }
    };
    let incremented = CounterRecord { count: created.count + 1, expires_at: created.expires_at };
    Counted {
        store: store.insert(key, incremented),
        count: incremented.count,
        ttl: time_to_live(incremented, now),
    }
}

/// The store after `key` was tracked once at each of `times`, in that order.
pub open spec fn after_calls(
    store: CounterStore,
    key: Seq<u8>,
    period: nat,
    times: Seq<int>,
) -> CounterStore
    decreases times.len(),
{
    if times.len() == 0 {
        store
    } else {
        counted(after_calls(store, key, period, times.drop_last()), key, period, times.last()).store
    }
}

/// The `i`-th of the calls that track `key` at `times`, counting from zero.
pub open spec fn nth_call(
    store: CounterStore,
    key: Seq<u8>,
    period: nat,
    times: Seq<int>,
    i: int,
) -> Counted {
    counted(after_calls(store, key, period, times.take(i)), key, period, times[i])
}

/// Calls that open a window and stay inside it: the key has no live record
/// when the first call comes, and every call comes before the window that
/// the first one opens has ended.
pub open spec fn within_one_window(
    store: CounterStore,
    key: Seq<u8>,
    period: nat,
    times: Seq<int>,
) -> bool {
    &&& times.len() > 0
    &&& !is_live(store, key, times[0])
    &&& forall|i: int| 0 <= i < times.len() ==> times[0] <= #[trigger] times[i] < times[0] + period
}

/// An order in which `n` callers are served: each of the places `0..n`,
/// once.
pub open spec fn is_order(order: Seq<int>, n: nat) -> bool {
    &&& order.len() == n
    &&& forall|j: int| 0 <= j < n ==> 0 <= #[trigger] order[j] < n
    &&& forall|j: int, k: int| 0 <= j < k < n ==> order[j] != order[k]
}

/// The record of the key after the first `n` calls of one window.
proof fn lemma_record_within_window(
    store: CounterStore,
    key: Seq<u8>,
    period: nat,
    times: Seq<int>,
    n: int,
)
    requires
        within_one_window(store, key, period, times),
        0 < n <= times.len(),
    ensures
        after_calls(store, key, period, times.take(n)).dom().contains(key),
        after_calls(store, key, period, times.take(n))[key] == (CounterRecord {
            count: n as nat,
            expires_at: Some(times[0] + period),
        }),
    decreases n,
{
    let calls = times.take(n);
    assert(calls.drop_last() == times.take(n - 1));
    assert(calls.last() == times[n - 1]);
    if n == 1 {
        assert(times.take(0).len() == 0);
        assert(after_calls(store, key, period, times.take(0)) == store);
    } else {
        lemma_record_within_window(store, key, period, times, n - 1);
    }
}

/// Within one window the calls for a key are counted 1, 2, 3, ... in the
/// order in which the store runs them, and each is told the time that is
/// left of the window which the first call opened: later calls do not move
/// its end.
pub proof fn law_counts_run_up_within_window(
    store: CounterStore,
    key: Seq<u8>,
    period: nat,
    times: Seq<int>,
    i: int,
)
    requires
        within_one_window(store, key, period, times),
        0 <= i < times.len(),
    ensures
        nth_call(store, key, period, times, i).count == i + 1,
        nth_call(store, key, period, times, i).ttl == times[0] + period - times[i],
        nth_call(store, key, period, times, i).ttl > 0,
{
    if i == 0 {
        assert(times.take(0).len() == 0);
        assert(after_calls(store, key, period, times.take(0)) == store);
    } else {
        lemma_record_within_window(store, key, period, times, i);
    }
}

/// While the record of a key lives, a call for the key counts one up and
/// leaves the expiry where the first call of the window has put it: the
/// window is fixed, it neither slides nor is it refreshed.
pub proof fn law_expiry_is_set_once(store: CounterStore, key: Seq<u8>, period: nat, now: int)
    requires
        is_live(store, key, now),
    ensures
        counted(store, key, period, now).store[key].expires_at == store[key].expires_at,
        counted(store, key, period, now).store[key].count == store[key].count + 1,
        counted(store, key, period, now).count == store[key].count + 1,
        counted(store, key, period, now).ttl == time_to_live(store[key], now),
{
}

/// Once the record of a key has expired, the next call for the key opens a
/// new window: it is counted as the first, with the whole period to live,
/// whatever the count had come to.
pub proof fn law_window_starts_afresh(store: CounterStore, key: Seq<u8>, period: nat, now: int)
    requires
        !is_live(store, key, now),
    ensures
        counted(store, key, period, now).count == 1,
        counted(store, key, period, now).ttl == period,
{
}

/// Tracking one key leaves the records of all other keys as they are.
pub proof fn law_other_keys_untouched(
    store: CounterStore,
    key: Seq<u8>,
    period: nat,
    now: int,
    other: Seq<u8>,
)
    requires
        other != key,
    ensures
        counted(store, key, period, now).store.dom().contains(other) == store.dom().contains(
            other,
        ),
        store.dom().contains(other) ==> counted(store, key, period, now).store[other]
            == store[other],
{
}

/// Whether one of the callers that are served in `order` is told `count`.
pub open spec fn is_told(
    store: CounterStore,
    key: Seq<u8>,
    period: nat,
    times: Seq<int>,
    order: Seq<int>,
    count: int,
) -> bool {
    exists|j: int|
        0 <= j < times.len() && (#[trigger] nth_call(store, key, period, times, order[j])).count
            == count
}

/// An order of `n` places leaves no place out.
proof fn lemma_order_is_onto(order: Seq<int>, n: nat, place: int)
    requires
        is_order(order, n),
        0 <= place < n,
    ensures
        exists|j: int| 0 <= j < n && order[j] == place,
{
    let places = set_int_range(0, n as int);
    lemma_int_range(0, n as int);
    assert(order.no_duplicates());
    order.unique_seq_to_set();
    assert(order.to_set().subset_of(places)) by {
        assert forall|p: int| order.to_set().contains(p) implies places.contains(p) by {
            let j = choose|j: int| 0 <= j < order.len() && order[j] == p;
            assert(0 <= order[j] < n);
        }
    }
    lemma_len_subset(order.to_set(), places);
    lemma_subset_equality(order.to_set(), places);
    assert(places.contains(place));
    assert(order.to_set().contains(place));
}

/// Callers that race each other for one key within one window are told
/// counts that are exactly 1 to `n`, each once, whatever the order in which
/// the store runs their transactions: the caller in place `order[j]` is told
/// `order[j] + 1`, no two callers are told the same count, and no count from
/// 1 to `n` is left out.
pub proof fn law_racing_callers_share_no_count(
    store: CounterStore,
    key: Seq<u8>,
    period: nat,
    times: Seq<int>,
    order: Seq<int>,
)
    requires
        within_one_window(store, key, period, times),
        is_order(order, times.len()),
    ensures
        forall|j: int|
            0 <= j < times.len() ==> (#[trigger] nth_call(
                store,
                key,
                period,
                times,
                order[j],
            )).count == order[j] + 1,
        forall|j: int, k: int|
            0 <= j < k < times.len() ==> nth_call(store, key, period, times, order[j]).count
                != nth_call(store, key, period, times, order[k]).count,
        forall|count: int|
            1 <= count <= times.len() ==> #[trigger] is_told(
                store,
                key,
                period,
                times,
                order,
                count,
            ),
{
    let n = times.len();
    assert forall|j: int| 0 <= j < n implies (#[trigger] nth_call(
        store,
        key,
        period,
        times,
        order[j],
    )).count == order[j] + 1 by {
        law_counts_run_up_within_window(store, key, period, times, order[j]);
    }
    assert forall|count: int| 1 <= count <= n implies #[trigger] is_told(
        store,
        key,
        period,
        times,
        order,
        count,
    ) by {
        lemma_order_is_onto(order, n, count - 1);
        let j = choose|j: int| 0 <= j < n && order[j] == count - 1;
        assert(nth_call(store, key, period, times, order[j]).count == count);
    }
}

} // verus!
