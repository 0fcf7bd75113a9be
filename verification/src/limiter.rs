//! The window rate limiter: a limit and a period, and the decision that the
//! store's reply to one counted observation leads to.

use crate::clock::{is_reset_time, reset_time, MAX_TTL_SECS};
use crate::status::{build_status, remaining_of, Status};
use crate::store::{pipeline_commands, pipeline_is_atomic, track, track_commands};
use redis::{Client, Pipeline, RedisError};
use vstd::prelude::*;

verus! {

/// The Redis client: the address of a server, and the way to reach it.
#[verifier::external_type_specification]
#[verifier::external_body]
pub struct ExClient(Client);

/// The failure of the Redis client or of the server behind it.
#[verifier::external_type_specification]
#[verifier::external_body]
pub struct ExRedisError(RedisError);

/// The default limit of requests in a period
pub const DEFAULT_LIMIT: usize = 5000;

/// The default length of the period in seconds
pub const DEFAULT_PERIOD_SECS: u64 = 3600;

/// Error type for this crate.
#[derive(Debug)]
pub enum Error {
    /// The Redis client failed to connect or run a query.
    Client(RedisError),
    /// The limit is exceeded for a key.
    LimitExceeded(Status),
    /// A time conversion failed. The limiter's own decisions do not fail so:
    /// where the reset time cannot be calculated they tell the sentinel 0.
    Time(time::OutOfRangeError),
}

impl From<RedisError> for Error {
    fn from(err: RedisError) -> (error: Error) {
        Error::Client(err)
    }
}

impl vstd::std_specs::convert::FromSpecImpl<RedisError> for Error {
    open spec fn obeys_from_spec() -> bool {
        true
    }

    open spec fn from_spec(err: RedisError) -> Error {
        Error::Client(err)
    }
}

impl From<time::OutOfRangeError> for Error {
    fn from(err: time::OutOfRangeError) -> (error: Error) {
        Error::Time(err)
    }
}

impl vstd::std_specs::convert::FromSpecImpl<time::OutOfRangeError> for Error {
    open spec fn obeys_from_spec() -> bool {
        true
    }

    open spec fn from_spec(err: time::OutOfRangeError) -> Error {
        Error::Time(err)
    }
}

/// A rate limiter using a fixed window counter, backed by Redis.
///
/// The per-period limit and the period duration are customizable when building an instance.
#[derive(Debug)]
pub struct Limiter {
    /// The Redis client
    client: Client,
    /// The per-period limit
    limit: usize,
    /// The period duration in seconds
    period: u64,
}

/// A builder for a [`Limiter`].
pub struct Builder<'a> {
    redis_url: &'a str,
    limit: usize,
    period: u64,
}

/// Whether the Redis client takes `url` as the address of a server.
pub uninterp spec fn client_accepts(url: Seq<char>) -> bool;

/// Calls `Client::open`, which connects to nothing yet: it reads the URL and
/// refuses one that it cannot take for the address of a Redis server.
#[verifier::external_body]
fn open_client(redis_url: &str) -> (client: Result<Client, RedisError>)
    ensures
        client is Ok <==> client_accepts(redis_url@),
{
    Client::open(redis_url)
}

/// The status of a key that was seen `count` times in a window of `limit`
/// which ends at `reset_epoch_utc`.
pub open spec fn status_is(
    status: Status,
    count: usize,
    limit: usize,
    reset_epoch_utc: usize,
) -> bool {
    &&& status.limit() == limit
    &&& status.remaining() == remaining_of(count as nat, limit as nat)
    &&& status.reset_epoch_utc() == reset_epoch_utc
}

/// The decision on the `count`-th observation of a key in a window of
/// `limit`: the first `limit` observations are let through, every later one
/// is denied, and either way the status is handed out.
pub open spec fn is_decision(
    decision: Result<Status, Error>,
    count: usize,
    limit: usize,
    reset_epoch_utc: usize,
) -> bool {
    match decision {
        Ok(status) => count <= limit && status_is(status, count, limit, reset_epoch_utc),
        Err(Error::LimitExceeded(status)) => count > limit && status_is(
            status,
            count,
            limit,
            reset_epoch_utc,
        ),
        Err(_) => false,
    }
}

/// The decision on a request whose transaction the store has replied to. A
/// failure of the client is handed on as it is; a count is decided on, with
/// a reset time that fits the TTL.
pub open spec fn is_counted(
    decision: Result<Status, Error>,
    reply: Result<(usize, u64), RedisError>,
    limit: usize,
) -> bool {
    match reply {
        Err(error) => decision == Err::<Status, Error>(Error::Client(error)),
        Ok((count, ttl)) => exists|reset: usize|
            is_reset_time(reset, ttl) && #[trigger] is_decision(decision, count, limit, reset),
    }
}

impl Limiter {
    /// Returns a builder for a `Limiter`.
    pub fn build(redis_url: &str) -> (builder: Builder<'_>)
        ensures
            builder.redis_url()@ == redis_url@,
            builder.spec_limit() == DEFAULT_LIMIT,
            builder.spec_period() == DEFAULT_PERIOD_SECS,
    {
        Builder { redis_url, limit: DEFAULT_LIMIT, period: DEFAULT_PERIOD_SECS }
    }

    pub closed spec fn spec_limit(&self) -> usize {
        self.limit
    }

    pub closed spec fn spec_period(&self) -> u64 {
        self.period
    }

    /// The maximum number of requests permitted in a period.
    #[verifier::when_used_as_spec(spec_limit)]
    pub fn limit(&self) -> (limit: usize)
        ensures
            limit == self.spec_limit(),
    {
        self.limit
    }

    /// The length of a period in seconds.
    #[verifier::when_used_as_spec(spec_period)]
    pub fn period(&self) -> (period: u64)
        ensures
            period == self.spec_period(),
    {
        self.period
    }

    pub closed spec fn spec_client(&self) -> Client {
        self.client
    }

    /// The Redis client, for whoever runs the transactions.
    pub fn client(&self) -> (client: &Client)
        ensures
            *client == self.spec_client(),
    {
        &self.client
    }

    /// Builds the transaction that tracks the given key in a period: run
    /// against the store it replies with the count and the TTL for the key in
    /// seconds.
    pub fn track(&self, key: &str) -> (pipeline: Pipeline)
        ensures
            pipeline_commands(pipeline) == track_commands(key@, self.period()),
            pipeline_is_atomic(pipeline),
    {
        track(key, self.period)
    }

    /// Decides on a request that was counted as the `count`-th of its key in
    /// a window that ends at `reset_epoch_utc`.
    pub fn decide(&self, count: usize, reset_epoch_utc: usize) -> (decision: Result<Status, Error>)
        ensures
            is_decision(decision, count, self.limit(), reset_epoch_utc),
    {
        let status = build_status(count, self.limit, reset_epoch_utc);
        if count > self.limit {
            Err(Error::LimitExceeded(status))
        } else {
            Ok(status)
        }
    }

    /// Counts a request on a key over a period, given the store's reply to the
    /// key's transaction: the count and the TTL in seconds, or the failure of
    /// the client.
    ///
    /// A failure of the client is handed on as it is. Every other reply is
    /// decided on its count, with a reset time of the TTL after some reading
    /// of the clock. A TTL that the clock arithmetic cannot take does not
    /// stand in the way of the decision: the reset time is then the sentinel
    /// 0.
    pub fn count(&self, reply: Result<(usize, u64), RedisError>) -> (decision: Result<
        Status,
        Error,
    >)
        ensures
            is_counted(decision, reply, self.limit()),
            reply matches Ok((count, ttl)) ==> (ttl > MAX_TTL_SECS ==> is_decision(
                decision,
                count,
                self.limit(),
                0,
            )),
    {
        match reply {
            Err(error) => Err(Error::Client(error)),
            Ok((count, ttl)) => {
                let reset_epoch_utc = reset_time(ttl);
                let decision = self.decide(count, reset_epoch_utc);
                assert(is_reset_time(reset_epoch_utc, ttl) && is_decision(
                    decision,
                    count,
                    self.limit(),
                    reset_epoch_utc,
                ));
                decision
            },
        }
    }
}

impl<'a> Builder<'a> {
    pub closed spec fn redis_url(&self) -> &'a str {
        self.redis_url
    }

    pub closed spec fn spec_limit(&self) -> usize {
        self.limit
    }

    pub closed spec fn spec_period(&self) -> u64 {
        self.period
    }

    /// Sets a new maximum limit for the Limiter.
    pub fn limit(&mut self, limit: usize) -> (builder: &mut Self)
        ensures
            builder.spec_limit() == limit,
            builder.spec_period() == old(self).spec_period(),
            builder.redis_url() == old(self).redis_url(),
            *final(self) == *final(builder),
    {
        self.limit = limit;
        self
    }

    /// Sets a new period duration, in seconds, for the Limiter.
    pub fn period(&mut self, period: u64) -> (builder: &mut Self)
        ensures
            builder.spec_period() == period,
            builder.spec_limit() == old(self).spec_limit(),
            builder.redis_url() == old(self).redis_url(),
            *final(self) == *final(builder),
    {
        self.period = period;
        self
    }

    /// Finalizes and returns a `Limiter`.
    ///
    /// Fails where the Redis client does not take the URL, and only then.
    pub fn finish(&self) -> (limiter: Result<Limiter, Error>)
        ensures
            limiter is Ok <==> client_accepts(self.redis_url()@),
            limiter matches Ok(l) ==> l.limit() == self.spec_limit() && l.period()
                == self.spec_period(),
            limiter matches Err(e) ==> e is Client,
    {
        match open_client(self.redis_url) {
            Ok(client) => Ok(Limiter { client, limit: self.limit, period: self.period }),
            Err(error) => Err(Error::Client(error)),
        }
    }
}

} // verus!
