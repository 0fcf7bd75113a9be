//! The enforcement middleware: what becomes of each inbound request.
//!
//! A request is handled in two steps with one round trip to the counter
//! store between them. `RateLimiterMiddleware::call` reads the key and either
//! rejects the request or hands out the transaction to run;
//! `RateLimiterMiddleware::resolve` turns the store's reply into the outcome.

use crate::clock::{is_reset_time, MAX_TTL_SECS};
use crate::decimal::decimal_bytes;
use crate::headers::{
    first_text, header_entries, insert_number, is_header_name, is_text,
    lemma_long_name_is_no_header_name, stored_form, stored_name, HeaderFields,
    MAX_HEADER_NAME_LEN,
};
use crate::limiter::{is_counted, is_decision, status_is, Error, Limiter};
use crate::status::Status;
use crate::store::{pipeline_commands, pipeline_is_atomic, track_commands};
use actix_web::http::HeaderMap;
use redis::{Pipeline, RedisError};
use vstd::prelude::*;
use vstd::utf8::encode_utf8;

verus! {

/// The `limit` HTTP header name
pub const HEADER_LIMIT: &'static str = "x-ratelimit-limit";

/// The `remaining` HTTP header name
pub const HEADER_REMAINING: &'static str = "x-ratelimit-remaining";

/// The `reset` HTTP header name
pub const HEADER_RESET: &'static str = "x-ratelimit-reset";

/// The status code of a request that is turned away.
pub const FORBIDDEN: u16 = 403;

/// The key on which a request with these header fields is rate limited: the
/// first value of the configured header, taken as it is, where it reads as
/// text. A request without such a value has no key.
pub open spec fn request_key(
    entries: HeaderFields,
    token_header: Seq<char>,
) -> Option<Seq<u8>> {
    if entries.dom().contains(token_header) && is_text(entries[token_header][0]) {
        Some(entries[token_header][0])
    } else {
        None
    }
}

/// Determines a key on which to rate limit the request.
///
/// If the expected header is not present, then `None` will be returned.
pub fn key(headers: &HeaderMap, token_header: &str) -> (key: Option<String>)
    requires
        is_header_name(token_header@),
    ensures
        match key {
            Some(text) => request_key(header_entries(*headers), token_header@) == Some(
                encode_utf8(text@),
            ),
            None => request_key(header_entries(*headers), token_header@) is None,
        },
{
    // The header value is used verbatim.
    first_text(headers, token_header)
}

/// The header fields once the three rate-limiting headers carry `status`.
pub open spec fn with_rate_limit_headers(
    entries: HeaderFields,
    status: Status,
) -> HeaderFields {
    entries.insert(HEADER_LIMIT@, seq![decimal_bytes(status.limit() as nat)]).insert(
        HEADER_REMAINING@,
        seq![decimal_bytes(status.remaining() as nat)],
    ).insert(HEADER_RESET@, seq![decimal_bytes(status.reset_epoch_utc() as nat)])
}

/// The names of the rate-limiting headers are header names in stored form.
pub proof fn lemma_rate_limit_header_names()
    ensures
        is_header_name(HEADER_LIMIT@),
        is_header_name(HEADER_REMAINING@),
        is_header_name(HEADER_RESET@),
{
    reveal_strlit("x-ratelimit-limit");
    reveal_strlit("x-ratelimit-remaining");
    reveal_strlit("x-ratelimit-reset");
}

/// Adds rate-limiting HTTP headers to the outgoing response.
pub fn add_rate_limit_headers(headers: &mut HeaderMap, status: &Status)
    ensures
        header_entries(*final(headers)) == with_rate_limit_headers(
            header_entries(*old(headers)),
            *status,
        ),
{
    proof {
        lemma_rate_limit_header_names();
    }
    insert_number(headers, HEADER_LIMIT, status.limit());
    insert_number(headers, HEADER_REMAINING, status.remaining());
    insert_number(headers, HEADER_RESET, status.reset_epoch_utc());
}

/// What becomes of a request.
#[derive(Clone, Copy, Debug, PartialEq, Eq, Structural)]
pub enum Outcome {
    /// The request has no key: it is turned away, and nothing was counted.
    Rejected,
    /// The window's quota is used up: the request is turned away.
    Denied(Status),
    /// The request is within the quota: it is passed on.
    Admitted(Status),
    /// The counter store gave no usable answer: the request is passed on
    /// without having been decided.
    FailOpen,
}

impl Outcome {
    /// Whether the request is passed on to the next service.
    pub open spec fn spec_forwards(&self) -> bool {
        self is Admitted || self is FailOpen
    }

    /// The status that the response reports, if any.
    pub open spec fn spec_status(&self) -> Option<Status> {
        match self {
            Outcome::Denied(status) => Some(*status),
            Outcome::Admitted(status) => Some(*status),
            _ => None,
        }
    }

    /// The status code of the answer to a request that is turned away; none
    /// for a request that is passed on, whose answer is the next service's.
    pub open spec fn spec_response_code(&self) -> Option<u16> {
        if self.spec_forwards() {
            None
        } else {
            Some(FORBIDDEN)
        }
    }

    /// The header fields of the response once the outcome has left its mark.
    pub open spec fn decorated(&self, entries: HeaderFields) -> HeaderFields {
        match self.spec_status() {
            Some(status) => with_rate_limit_headers(entries, status),
            None => entries,
        }
    }

    /// The outcome of a request whose count was decided on, or could not be
    /// decided on for want of the count.
    pub open spec fn of(decision: Result<Status, Error>) -> Outcome {
        match decision {
            Ok(status) => Outcome::Admitted(status),
            Err(Error::LimitExceeded(status)) => Outcome::Denied(status),
            Err(_) => Outcome::FailOpen,
        }
    }

    /// Whether the request is passed on to the next service.
    #[verifier::when_used_as_spec(spec_forwards)]
    pub fn forwards(&self) -> (forwards: bool)
        ensures
            forwards == self.spec_forwards(),
    {
        match self {
            Outcome::Admitted(_) => true,
            Outcome::FailOpen => true,
            _ => false,
        }
    }

    /// The status that the response reports, if any.
    #[verifier::when_used_as_spec(spec_status)]
    pub fn status(&self) -> (status: Option<Status>)
        ensures
            status == self.spec_status(),
    {
        match self {
            Outcome::Denied(status) => Some(*status),
            Outcome::Admitted(status) => Some(*status),
            _ => None,
        }
    }

    /// The status code of the answer to a request that is turned away; none
    /// for a request that is passed on, whose answer is the next service's.
    #[verifier::when_used_as_spec(spec_response_code)]
    pub fn response_code(&self) -> (code: Option<u16>)
        ensures
            code == self.spec_response_code(),
    {
        if self.forwards() {
            None
        } else {
            Some(FORBIDDEN)
        }
    }

    /// Leaves the outcome's mark on the header fields of the response: the
    /// rate-limiting headers where there is a status to tell, nothing otherwise.
    pub fn decorate(&self, headers: &mut HeaderMap)
        ensures
            header_entries(*final(headers)) == self.decorated(header_entries(*old(headers))),
    {
        match self {
            Outcome::Denied(status) => add_rate_limit_headers(headers, status),
            Outcome::Admitted(status) => add_rate_limit_headers(headers, status),
            _ => {},
        }
    }

    /// The outcome of a request whose count was decided on: within the limit
    /// it is passed on, beyond the limit it is turned away. A decision that
    /// could not be made for want of the count passes the request on
    /// undecided.
    pub(crate) fn from_decision(decision: Result<Status, Error>) -> (outcome: Outcome)
        ensures
            outcome == Outcome::of(decision),
    {
        match decision {
            Ok(status) => Outcome::Admitted(status),
            Err(Error::LimitExceeded(status)) => Outcome::Denied(status),
            Err(_) => Outcome::FailOpen,
        }
    }
}

/// What the middleware asks for next.
pub enum Step {
    /// Run the transaction against the counter store and hand its reply to
    /// `RateLimiterMiddleware::resolve`.
    Count { key: String, transaction: Pipeline },
    /// The request is done with: this is its outcome.
    Finish(Outcome),
}

/// Rate limiting of requests with a fixed window counter keyed on a header.
pub struct RateLimiter {
    limiter: Limiter,
    header: String,
}

/// The service that `RateLimiter` puts in front of the next one.
pub struct RateLimiterMiddleware<'a> {
    limiter: &'a Limiter,
    header: &'a str,
}

impl RateLimiter {
    #[verifier::type_invariant]
    spec fn well_formed(&self) -> bool {
        is_header_name(self.header@)
    }

    pub closed spec fn spec_header(&self) -> Seq<char> {
        self.header@
    }

    pub closed spec fn spec_limiter(&self) -> Limiter {
        self.limiter
    }

    /// Rate limiting by `limiter` on the header called `header`, whose
    /// letters may be in either case. There is none for a name that is no
    /// header name.
    pub fn new(limiter: Limiter, header: &str) -> (made: Option<RateLimiter>)
        ensures
            made is Some <==> is_header_name(stored_form(header@)),
            made matches Some(rate_limiter) ==> rate_limiter.spec_header() == stored_form(header@)
                && rate_limiter.spec_limiter() == limiter,
    {
        if header.as_bytes().len() >= MAX_HEADER_NAME_LEN {
            proof {
                lemma_long_name_is_no_header_name(header@);
            }
            return None;
        }
        match stored_name(header) {
            Some(header) => Some(RateLimiter { limiter, header }),
            None => None,
        }
    }

    /// Rate limiting by `limiter` on the header called `header`, a name in
    /// stored form.
    pub fn with_stored_header(limiter: Limiter, header: String) -> (made: RateLimiter)
        requires
            is_header_name(header@),
        ensures
            made.spec_header() == header@,
            made.spec_limiter() == limiter,
    {
        RateLimiter { limiter, header }
    }

    /// The name of the header that holds the key, in stored form.
    pub fn header(&self) -> (header: &str)
        ensures
            header@ == self.spec_header(),
            is_header_name(header@),
    {
        proof {
            use_type_invariant(self);
        }
        self.header.as_str()
    }

    /// The limiter that counts and decides.
    pub fn limiter(&self) -> (limiter: &Limiter)
        ensures
            *limiter == self.spec_limiter(),
    {
        &self.limiter
    }

    /// The service for one worker.
    pub fn new_transform(&self) -> (service: RateLimiterMiddleware<'_>)
        ensures
            service.spec_header() == self.spec_header(),
            *service.spec_limiter() == self.spec_limiter(),
    {
        proof {
            use_type_invariant(self);
        }
        RateLimiterMiddleware { limiter: &self.limiter, header: self.header.as_str() }
    }
}

impl<'a> RateLimiterMiddleware<'a> {
    #[verifier::type_invariant]
    spec fn well_formed(&self) -> bool {
        is_header_name(self.header@)
    }

    pub closed spec fn spec_header(&self) -> Seq<char> {
        self.header@
    }

    pub closed spec fn spec_limiter(&self) -> &'a Limiter {
        self.limiter
    }

    /// Takes up a request with these header fields.
    ///
    /// A request without a key is rejected on the spot: no transaction is
    /// made for it, so nothing is counted. For every other the transaction
    /// that counts its key is handed out.
    pub fn call(&self, headers: &HeaderMap) -> (step: Step)
        ensures
            is_first_step(
                step,
                header_entries(*headers),
                self.spec_header(),
                self.spec_limiter().period(),
            ),
    {
        proof {
            use_type_invariant(self);
        }
        match key(headers, self.header) {
            Some(key) => {
                let transaction = self.limiter.track(key.as_str());
                Step::Count { key, transaction }
            },
            None => Step::Finish(Outcome::Rejected),
        }
    }

    /// Settles a request once the counter store has replied to its
    /// transaction with the count and the TTL in seconds, or has failed.
    ///
    /// A count within the limit admits the request, a count beyond it denies
    /// the request, both with the status to tell. Where the store failed, the
    /// request is passed on undecided.
    pub fn resolve(&self, reply: Result<(usize, u64), RedisError>) -> (outcome: Outcome)
        ensures
            is_resolved(outcome, reply, self.spec_limiter().limit()),
            reply matches Ok((count, ttl)) ==> (ttl > MAX_TTL_SECS ==> is_settled(
                outcome,
                count,
                self.spec_limiter().limit(),
                0,
            )),
    {
        let ghost given = reply;
        let decision = self.limiter.count(reply);
        let ghost decided = decision;
        let outcome = Outcome::from_decision(decision);
        proof {
            lemma_outcome_follows_decision(decided, given, self.limiter.limit());
        }
        outcome
    }
}

/// The outcome of a request whose transaction the store has replied to: a
/// request whose count is known is admitted or denied on it, with a reset
/// time that fits the TTL, and a request whose count the store has failed to
/// give is passed on undecided.
pub open spec fn is_resolved(
    outcome: Outcome,
    reply: Result<(usize, u64), RedisError>,
    limit: usize,
) -> bool {
    match reply {
        Err(_) => outcome == Outcome::FailOpen,
        Ok((count, ttl)) => exists|reset: usize|
            is_reset_time(reset, ttl) && #[trigger] is_settled(outcome, count, limit, reset),
    }
}

/// The outcome of a decision on a reply settles the request of that reply.
pub proof fn lemma_outcome_follows_decision(
    decision: Result<Status, Error>,
    reply: Result<(usize, u64), RedisError>,
    limit: usize,
)
    requires
        is_counted(decision, reply, limit),
    ensures
        is_resolved(Outcome::of(decision), reply, limit),
        reply matches Ok((count, ttl)) ==> forall|reset: usize|
            is_decision(decision, count, limit, reset) ==> #[trigger] is_settled(
                Outcome::of(decision),
                count,
                limit,
                reset,
            ),
{
    if let Ok((count, ttl)) = reply {
        let reset = choose|reset: usize|
            is_reset_time(reset, ttl) && #[trigger] is_decision(decision, count, limit, reset);
        assert(is_settled(Outcome::of(decision), count, limit, reset));
    }
}

/// What the middleware does first with a request that has these header
/// fields: a request without a key is rejected, and for every other the
/// transaction that tracks its key for `period` seconds is to be run.
pub open spec fn is_first_step(
    step: Step,
    entries: HeaderFields,
    token_header: Seq<char>,
    period: u64,
) -> bool {
    match step {
        Step::Finish(outcome) => outcome == Outcome::Rejected && request_key(entries, token_header)
            is None,
        Step::Count { key, transaction } => {
            &&& request_key(entries, token_header) == Some(encode_utf8(key@))
            &&& pipeline_commands(transaction) == track_commands(key@, period)
            &&& pipeline_is_atomic(transaction)
        },
    }
}

/// The outcome of the `count`-th request of a key in a window of `limit`
/// which ends at `reset_epoch_utc`.
pub open spec fn is_settled(
    outcome: Outcome,
    count: usize,
    limit: usize,
    reset_epoch_utc: usize,
) -> bool {
    match outcome {
        Outcome::Admitted(status) => count <= limit && status_is(
            status,
            count,
            limit,
            reset_epoch_utc,
        ),
        Outcome::Denied(status) => count > limit && status_is(
            status,
            count,
            limit,
            reset_epoch_utc,
        ),
        _ => false,
    }
}

} // verus!
