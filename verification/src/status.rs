//! The per-key snapshot that every counted request yields.

use vstd::prelude::*;

verus! {

/// A report for a given key: the limit of the window, what is left of it, and
/// when the window ends.
#[derive(Clone, Copy, Debug, PartialEq, Eq, Structural)]
pub struct Status {
    limit: usize,
    remaining: usize,
    reset_epoch_utc: usize,
}

/// What is left of a window of `limit` requests once `count` of them were seen.
pub open spec fn remaining_of(count: nat, limit: nat) -> nat {
    if count >= limit {
        0
    } else {
        (limit - count) as nat
    }
}

impl Status {
    pub closed spec fn spec_limit(&self) -> usize {
        self.limit
    }

    pub closed spec fn spec_remaining(&self) -> usize {
        self.remaining
    }

    pub closed spec fn spec_reset_epoch_utc(&self) -> usize {
        self.reset_epoch_utc
    }

    /// Returns the maximum number of requests permitted in the current period.
    #[verifier::when_used_as_spec(spec_limit)]
    pub fn limit(&self) -> (r: usize)
        ensures
            r == self.spec_limit(),
    {
        self.limit
    }

    /// Returns the number of requests remaining in the current period.
    #[verifier::when_used_as_spec(spec_remaining)]
    pub fn remaining(&self) -> (r: usize)
        ensures
            r == self.spec_remaining(),
    {
        self.remaining
    }

    /// Returns a UNIX timestamp in UTC approximately when the next period will begin.
    #[verifier::when_used_as_spec(spec_reset_epoch_utc)]
    pub fn reset_epoch_utc(&self) -> (r: usize)
        ensures
            r == self.spec_reset_epoch_utc(),
    {
        self.reset_epoch_utc
    }
}

/// Builds the `Status` of a key seen `count` times in a window of `limit`.
pub fn build_status(count: usize, limit: usize, reset_epoch_utc: usize) -> (status: Status)
    ensures
        status.limit() == limit,
        status.remaining() == remaining_of(count as nat, limit as nat),
        status.reset_epoch_utc() == reset_epoch_utc,
{
    let remaining: usize = if count >= limit {
        0
    } else {
        limit - count
    };
    Status { limit, remaining, reset_epoch_utc }
}

} // verus!
