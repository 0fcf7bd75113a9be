//! The time at which a window ends, as a UNIX timestamp.

use vstd::prelude::*;

verus! {

/// The time library's refusal of a span that it cannot hold.
#[verifier::external_type_specification]
#[verifier::external_body]
pub struct ExOutOfRangeError(time::OutOfRangeError);

/// The longest time to live, in seconds, that the clock arithmetic takes: the
/// whole seconds of the longest span that the time library can hold.
pub const MAX_TTL_SECS: u64 = 9_223_372_036_854_775;

/// The timestamp `ttl` seconds after `now`, or the sentinel 0 where that
/// moment lies before the epoch, or beyond what a signed 64-bit timestamp or a
/// `usize` holds.
pub open spec fn reset_epoch_at(now: int, ttl: int) -> nat {
    if 0 <= now + ttl <= i64::MAX && now + ttl <= usize::MAX {
        (now + ttl) as nat
    } else {
        0
    }
}

/// The nanoseconds of one second.
pub const NANOS_PER_SEC: u32 = 1_000_000_000;

/// A reading of the clock, in seconds and nanoseconds since the epoch,
/// rounded to the nearest second: half a second and more is rounded up. The
/// last second that a timestamp can hold is left as it is.
pub open spec fn rounded_reading(secs: i64, nanos: u32) -> i64 {
    if nanos % NANOS_PER_SEC >= NANOS_PER_SEC / 2 && secs < i64::MAX {
        (secs + 1) as i64
    } else {
        secs
    }
}

/// Calls `chrono::Utc::now` and hands out the reading's `timestamp` and its
/// `timestamp_subsec_nanos`. Nothing is promised of the result: it is
/// whatever the machine's clock says.
#[verifier::external_body]
fn utc_now() -> (reading: (i64, u32)) {
    let now = chrono::Utc::now();
    (now.timestamp(), now.timestamp_subsec_nanos())
}

/// Calls `chrono::Duration::from_std` on a span of whole seconds and hands out
/// the seconds of what it made. The call refuses a span of more than
/// `MAX_TTL_SECS` seconds and takes every other as it is.
#[verifier::external_body]
fn span_secs(secs: u64) -> (span: Result<i64, time::OutOfRangeError>)
    ensures
        match span {
            Ok(s) => secs <= MAX_TTL_SECS && s == secs,
            Err(_) => secs > MAX_TTL_SECS,
        },
{
    chrono::Duration::from_std(std::time::Duration::from_secs(secs)).map(|span| span.num_seconds())
}

/// Rounds a reading of the clock to the nearest second.
pub fn round_reading(secs: i64, nanos: u32) -> (now: i64)
    ensures
        now == rounded_reading(secs, nanos),
{
    if nanos % NANOS_PER_SEC >= NANOS_PER_SEC / 2 && secs < i64::MAX {
        secs + 1
    } else {
        secs
    }
}

/// The timestamp `ttl` seconds after the reading `now` of the clock.
pub fn reset_epoch(now: i64, ttl: i64) -> (reset: usize)
    ensures
        reset == reset_epoch_at(now as int, ttl as int),
{
    match now.checked_add(ttl) {
        Some(at) => {
            if at < 0 {
                0
            } else if at as u64 > usize::MAX as u64 {
                0
            } else {
                at as usize
            }
        },
        None => 0,
    }
}

/// Calculates a timestamp for "now plus `ttl` seconds".
///
/// Fails where the time library cannot hold a span of `ttl` seconds, and only
/// then. Otherwise the result is `reset_epoch` at some reading of the clock,
/// rounded to the nearest second.
pub fn epoch_utc_plus(ttl: u64) -> (reset: Result<usize, time::OutOfRangeError>)
    ensures
        reset is Err <==> ttl > MAX_TTL_SECS,
        reset matches Ok(at) ==> exists|now: i64| at == reset_epoch_at(now as int, ttl as int),
{
    match span_secs(ttl) {
        Ok(span) => {
            let (secs, nanos) = utc_now();
            let now = round_reading(secs, nanos);
            let at = reset_epoch(now, span);
            assert(at == reset_epoch_at(now as int, ttl as int));
            Ok(at)
        },
        Err(error) => Err(error),
    }
}

/// The reset time of a window with `ttl` seconds to live: the TTL after some
/// reading of the clock, and the sentinel 0 where the clock arithmetic cannot
/// take the TTL.
pub open spec fn is_reset_time(reset: usize, ttl: u64) -> bool {
    if ttl > MAX_TTL_SECS {
        reset == 0
    } else {
        exists|now: i64| reset == reset_epoch_at(now as int, ttl as int)
    }
}

/// The time at which a window with `ttl` seconds to live ends. Where the
/// clock arithmetic fails, the time falls back to the sentinel 0: a request
/// is not given up for want of a reset time.
pub fn reset_time(ttl: u64) -> (reset: usize)
    ensures
        is_reset_time(reset, ttl),
{
    match epoch_utc_plus(ttl) {
        Ok(at) => at,
        Err(_) => 0,
    }
}

} // verus!
