//! What holds of the gateway as a whole: of the middleware, the limiter and
//! the counter store together, and of the middleware and the forwarder
//! together.

use crate::headers::{is_header_value, values_of, HeaderFields};
use crate::limiter::{is_counted, Error};
use crate::middleware::{
    is_first_step, is_resolved, request_key, Outcome, Step, FORBIDDEN, HEADER_LIMIT,
    HEADER_REMAINING, HEADER_RESET,
};
use crate::proxy::{
    hop_by_hop_names, is_hop_by_hop, with_forwarded_for, without_hop_headers, X_FORWARDED_FOR,
};
use crate::status::Status;
use crate::window::{
    counted, is_live, law_counts_run_up_within_window, law_window_starts_afresh, nth_call,
    within_one_window, CounterStore,
};
use redis::RedisError;
use vstd::prelude::*;
use vstd::utf8::encode_utf8;

verus! {

/// The limit is inclusive. Of the calls for a key within one window of
/// `limit` requests, the first `limit` are decided with `Ok`, with
/// 'remaining' running down from `limit - 1` to 0, and every later call is
/// decided with `LimitExceeded` and nothing remaining; none of them is a
/// client error. Either way the status tells the limit. This holds whatever
/// TTL the store replies with.
pub proof fn law_limit_is_inclusive(
    store: CounterStore,
    key: Seq<u8>,
    period: nat,
    times: Seq<int>,
    i: int,
    limit: usize,
    ttl: u64,
    decision: Result<Status, Error>,
)
    requires
        within_one_window(store, key, period, times),
        0 <= i < times.len(),
        i < usize::MAX,
        is_counted(
            decision,
            Ok::<(usize, u64), RedisError>(
                (nth_call(store, key, period, times, i).count as usize, ttl),
            ),
            limit,
        ),
    ensures
        i < limit ==> (decision matches Ok(status) && status.limit() == limit
            && status.remaining() == limit - (i + 1)),
        i >= limit ==> (decision matches Err(Error::LimitExceeded(status)) && status.limit()
            == limit && status.remaining() == 0),
{
    law_counts_run_up_within_window(store, key, period, times, i);
}

/// What the limit means for the requests themselves: of the requests for a
/// key within one window, the first `limit` are admitted, with 'remaining'
/// running down from `limit - 1` to 0, and every later one is denied with
/// nothing remaining, whatever TTL the store replies with.
pub proof fn law_requests_within_limit_are_admitted(
    store: CounterStore,
    key: Seq<u8>,
    period: nat,
    times: Seq<int>,
    i: int,
    limit: usize,
    ttl: u64,
    outcome: Outcome,
)
    requires
        within_one_window(store, key, period, times),
        0 <= i < times.len(),
        i < usize::MAX,
        is_resolved(
            outcome,
            Ok::<(usize, u64), RedisError>(
                (nth_call(store, key, period, times, i).count as usize, ttl),
            ),
            limit,
        ),
    ensures
        i < limit ==> outcome is Admitted,
        i >= limit ==> outcome is Denied,
        outcome.status() is Some,
        outcome.status().unwrap().limit() == limit,
        outcome.status().unwrap().remaining() == if i < limit {
            limit - (i + 1)
        } else {
            0
        },
{
    law_counts_run_up_within_window(store, key, period, times, i);
}

/// After the period has elapsed, a new call for the same key is let through
/// again, with all of the limit but this one call remaining: what was counted
/// in the window before is forgotten.
pub proof fn law_admitted_again_after_period(
    store: CounterStore,
    key: Seq<u8>,
    period: nat,
    now: int,
    limit: usize,
    ttl: u64,
    decision: Result<Status, Error>,
    outcome: Outcome,
)
    requires
        limit > 0,
        !is_live(store, key, now),
        is_counted(
            decision,
            Ok::<(usize, u64), RedisError>((counted(store, key, period, now).count as usize, ttl)),
            limit,
        ),
        is_resolved(
            outcome,
            Ok::<(usize, u64), RedisError>((counted(store, key, period, now).count as usize, ttl)),
            limit,
        ),
    ensures
        decision matches Ok(status) && status.limit() == limit && status.remaining() == limit - 1,
        outcome matches Outcome::Admitted(status) && status.limit() == limit && status.remaining()
            == limit - 1,
{
    law_window_starts_afresh(store, key, period, now);
}

/// One request as the middleware takes it up: its header fields, the time at
/// which it comes, and the first step that the middleware takes on it.
pub struct Arrival {
    pub entries: HeaderFields,
    pub at: int,
    pub step: Step,
}

/// The store after the first step on one request has been followed: where a
/// transaction was asked for, it has run and has tracked its key; where the
/// request was settled on the spot, the store was not touched.
pub open spec fn store_after(store: CounterStore, period: u64, arrival: Arrival) -> CounterStore {
    match arrival.step {
        Step::Count { key, transaction } => counted(
            store,
            encode_utf8(key@),
            period as nat,
            arrival.at,
        ).store,
        Step::Finish(_) => store,
    }
}

/// The store after some requests were taken up, one after the other.
pub open spec fn store_after_all(
    store: CounterStore,
    period: u64,
    arrivals: Seq<Arrival>,
) -> CounterStore
    decreases arrivals.len(),
{
    if arrivals.len() == 0 {
        store
    } else {
        store_after(store_after_all(store, period, arrivals.drop_last()), period, arrivals.last())
    }
}

/// A request without a key is turned away with the status code 403 and
/// without rate-limiting headers, whatever the store holds: the first step
/// settles it, no transaction is run for it, and its outcome leaves the
/// header fields of the answer as they are.
pub proof fn law_keyless_request_is_forbidden(
    step: Step,
    entries: HeaderFields,
    token_header: Seq<char>,
    period: u64,
    answer: HeaderFields,
)
    requires
        request_key(entries, token_header) is None,
        is_first_step(step, entries, token_header, period),
    ensures
        step matches Step::Finish(outcome) && {
            &&& !outcome.forwards()
            &&& outcome.response_code() == Some(FORBIDDEN)
            &&& FORBIDDEN == 403
            &&& outcome.decorated(answer) == answer
        },
{
}

/// Requests without a key change no counter: however many of them come, the
/// store is left as it was, and so is every count that is told afterwards.
pub proof fn law_keyless_requests_count_nothing(
    store: CounterStore,
    token_header: Seq<char>,
    period: u64,
    arrivals: Seq<Arrival>,
)
    requires
        forall|i: int|
            0 <= i < arrivals.len() ==> {
                &&& request_key((#[trigger] arrivals[i]).entries, token_header) is None
                &&& is_first_step(arrivals[i].step, arrivals[i].entries, token_header, period)
            },
    ensures
        store_after_all(store, period, arrivals) == store,
        forall|key: Seq<u8>, now: int|
            #[trigger] counted(store_after_all(store, period, arrivals), key, period as nat, now)
                == counted(store, key, period as nat, now),
    decreases arrivals.len(),
{
    if arrivals.len() > 0 {
        law_keyless_requests_count_nothing(store, token_header, period, arrivals.drop_last());
        let last = arrivals[arrivals.len() - 1];
        assert(request_key(last.entries, token_header) is None);
    }
}

/// Requests without a key change nothing for the requests with one: after
/// any number of them, the requests for a key within one window are admitted
/// and denied as if none of them had come, with the same 'remaining'.
pub proof fn law_keyless_requests_change_no_outcome(
    store: CounterStore,
    token_header: Seq<char>,
    period: u64,
    arrivals: Seq<Arrival>,
    key: Seq<u8>,
    times: Seq<int>,
    i: int,
    limit: usize,
    ttl: u64,
    outcome: Outcome,
)
    requires
        forall|j: int|
            0 <= j < arrivals.len() ==> {
                &&& request_key((#[trigger] arrivals[j]).entries, token_header) is None
                &&& is_first_step(arrivals[j].step, arrivals[j].entries, token_header, period)
            },
        within_one_window(store, key, period as nat, times),
        0 <= i < times.len(),
        i < usize::MAX,
        is_resolved(
            outcome,
            Ok::<(usize, u64), RedisError>(
                (
                    nth_call(
                        store_after_all(store, period, arrivals),
                        key,
                        period as nat,
                        times,
                        i,
                    ).count as usize,
                    ttl,
                ),
            ),
            limit,
        ),
    ensures
        i < limit ==> outcome is Admitted,
        i >= limit ==> outcome is Denied,
        outcome.status() is Some,
        outcome.status().unwrap().remaining() == if i < limit {
            limit - (i + 1)
        } else {
            0
        },
{
    law_keyless_requests_count_nothing(store, token_header, period, arrivals);
    law_requests_within_limit_are_admitted(
        store,
        key,
        period as nat,
        times,
        i,
        limit,
        ttl,
        outcome,
    );
}

/// None of the hop-by-hop headers is among the header fields of the request
/// that goes to the backend.
pub proof fn law_no_hop_header_reaches_backend(
    entries: HeaderFields,
    peer_ip: Option<Seq<char>>,
    name: Seq<char>,
)
    requires
        is_hop_by_hop(name),
    ensures
        !with_forwarded_for(without_hop_headers(entries), peer_ip).dom().contains(name),
{
    lemma_added_headers_are_no_hop_headers(name);
}

/// None of the hop-by-hop headers is among the header fields of the response
/// that goes back to the caller, whatever the outcome has added to them.
pub proof fn law_no_hop_header_reaches_caller(
    entries: HeaderFields,
    outcome: Outcome,
    name: Seq<char>,
)
    requires
        is_hop_by_hop(name),
    ensures
        !outcome.decorated(without_hop_headers(entries)).dom().contains(name),
{
    lemma_added_headers_are_no_hop_headers(name);
}

/// The headers that the pipeline adds are no hop-by-hop headers.
proof fn lemma_added_headers_are_no_hop_headers(name: Seq<char>)
    requires
        is_hop_by_hop(name),
    ensures
        name != X_FORWARDED_FOR@,
        name != HEADER_LIMIT@,
        name != HEADER_REMAINING@,
        name != HEADER_RESET@,
{
    reveal_strlit("connection");
    reveal_strlit("keep-alive");
    reveal_strlit("proxy-authenticate");
    reveal_strlit("proxy-authorization");
    reveal_strlit("te");
    reveal_strlit("trailers");
    reveal_strlit("transfer-encoding");
    reveal_strlit("upgrade");
    reveal_strlit("x-forwarded-for");
    reveal_strlit("x-ratelimit-limit");
    reveal_strlit("x-ratelimit-remaining");
    reveal_strlit("x-ratelimit-reset");
    let i = choose|i: int| 0 <= i < hop_by_hop_names().len() && hop_by_hop_names()[i] == name;
    assert(name[0] != 'x');
}

/// The caller's address is appended to the values of `x-forwarded-for` on
/// the request to the backend: the values that the inbound request brought
/// stay, in their order, and the address follows them as the last.
pub proof fn law_forwarded_for_is_appended(entries: HeaderFields, ip: Seq<char>)
    requires
        is_header_value(encode_utf8(ip)),
    ensures
        values_of(
            with_forwarded_for(without_hop_headers(entries), Some(ip)),
            X_FORWARDED_FOR@,
        ) == values_of(entries, X_FORWARDED_FOR@).push(encode_utf8(ip)),
{
    reveal_strlit("x-forwarded-for");
    lemma_forwarded_for_is_no_hop_header();
}

/// `x-forwarded-for` is no hop-by-hop header.
proof fn lemma_forwarded_for_is_no_hop_header()
    ensures
        !is_hop_by_hop(X_FORWARDED_FOR@),
{
    if is_hop_by_hop(X_FORWARDED_FOR@) {
        lemma_added_headers_are_no_hop_headers(X_FORWARDED_FOR@);
    }
}

} // verus!
