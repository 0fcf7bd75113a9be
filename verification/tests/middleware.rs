use actix_web::http::{HeaderMap, HeaderName, HeaderValue};
use limitation::limiter::Limiter;
use limitation::middleware::{
    add_rate_limit_headers, key, Outcome, RateLimiter, Step, FORBIDDEN, HEADER_LIMIT,
    HEADER_REMAINING, HEADER_RESET,
};
use limitation::status::build_status;
use redis::{ErrorKind, RedisError};

fn limiter(limit: usize, period: u64) -> Limiter {
    Limiter::build("redis://127.0.0.1/").limit(limit).period(period).finish().unwrap()
}

fn headers_with(fields: &[(&str, &[u8])]) -> HeaderMap {
    let mut headers = HeaderMap::new();
    for (name, value) in fields {
        headers.append(
            HeaderName::from_bytes(name.as_bytes()).unwrap(),
            HeaderValue::from_bytes(value).unwrap(),
        );
    }
    headers
}

fn values(headers: &HeaderMap, name: &str) -> Vec<Vec<u8>> {
    headers.get_all(name).map(|value| value.as_bytes().to_vec()).collect()
}

#[test]
fn key_is_the_value_of_the_header() {
    let headers = headers_with(&[("authorization", b"token MYTOKEN"), ("accept", b"*/*")]);
    assert_eq!(key(&headers, "authorization"), Some("token MYTOKEN".to_string()));
}

#[test]
fn key_is_found_whatever_the_case_of_the_request_header() {
    let headers = headers_with(&[("Authorization", b"tok1")]);
    assert_eq!(key(&headers, "authorization"), Some("tok1".to_string()));
}

#[test]
fn key_is_missing_without_the_header() {
    let headers = headers_with(&[("accept", b"*/*")]);
    assert_eq!(key(&headers, "authorization"), None);
    assert_eq!(key(&HeaderMap::new(), "authorization"), None);
}

#[test]
fn key_is_missing_where_the_value_is_no_text() {
    let headers = headers_with(&[("authorization", b"tok\xfa")]);
    assert_eq!(key(&headers, "authorization"), None);
}

#[test]
fn key_may_be_empty_or_hold_a_tab() {
    let headers = headers_with(&[("authorization", b"")]);
    assert_eq!(key(&headers, "authorization"), Some(String::new()));
    let headers = headers_with(&[("authorization", b"a\tb")]);
    assert_eq!(key(&headers, "authorization"), Some("a\tb".to_string()));
}

#[test]
fn key_is_the_first_of_several_values() {
    let headers = headers_with(&[("x-token", b"one"), ("x-token", b"two"), ("x-token", b"three")]);
    let first = headers.get("x-token").unwrap().to_str().unwrap().to_string();
    assert_eq!(key(&headers, "x-token"), Some(first));
    assert_eq!(key(&headers, "x-token").unwrap().into_bytes(), values(&headers, "x-token")[0]);
}

#[test]
fn rate_limit_headers_carry_the_status() {
    let mut headers = headers_with(&[("content-type", b"text/plain")]);
    add_rate_limit_headers(&mut headers, &build_status(2, 5, 1_700_000_010));
    assert_eq!(values(&headers, "x-ratelimit-limit"), vec![b"5".to_vec()]);
    assert_eq!(values(&headers, "x-ratelimit-remaining"), vec![b"3".to_vec()]);
    assert_eq!(values(&headers, "x-ratelimit-reset"), vec![b"1700000010".to_vec()]);
    assert_eq!(values(&headers, "content-type"), vec![b"text/plain".to_vec()]);
    assert_eq!(headers.len(), 4);
}

#[test]
fn rate_limit_headers_take_the_place_of_older_ones() {
    let mut headers = headers_with(&[
        ("x-ratelimit-limit", b"1"),
        ("x-ratelimit-limit", b"2"),
        ("x-ratelimit-remaining", b"9"),
    ]);
    add_rate_limit_headers(&mut headers, &build_status(5, 5, 0));
    assert_eq!(values(&headers, "x-ratelimit-limit"), vec![b"5".to_vec()]);
    assert_eq!(values(&headers, "x-ratelimit-remaining"), vec![b"0".to_vec()]);
    assert_eq!(values(&headers, "x-ratelimit-reset"), vec![b"0".to_vec()]);
}

#[test]
fn rate_limit_headers_write_large_numbers_in_decimal() {
    let mut headers = HeaderMap::new();
    add_rate_limit_headers(&mut headers, &build_status(0, usize::MAX, usize::MAX));
    let largest = usize::MAX.to_string().into_bytes();
    assert_eq!(values(&headers, HEADER_LIMIT), vec![largest.clone()]);
    assert_eq!(values(&headers, HEADER_REMAINING), vec![largest.clone()]);
    assert_eq!(values(&headers, HEADER_RESET), vec![largest]);
}

#[test]
fn rate_limit_header_names_are_lower_case() {
    assert_eq!(HEADER_LIMIT, "x-ratelimit-limit");
    assert_eq!(HEADER_REMAINING, "x-ratelimit-remaining");
    assert_eq!(HEADER_RESET, "x-ratelimit-reset");
}

#[test]
fn outcomes_that_forward() {
    let status = build_status(1, 5, 9);
    assert!(Outcome::Admitted(status).forwards());
    assert!(Outcome::FailOpen.forwards());
    assert!(!Outcome::Denied(status).forwards());
    assert!(!Outcome::Rejected.forwards());
}

#[test]
fn outcomes_that_are_turned_away_answer_403() {
    let status = build_status(6, 5, 9);
    assert_eq!(FORBIDDEN, 403);
    assert_eq!(Outcome::Rejected.response_code(), Some(403));
    assert_eq!(Outcome::Denied(status).response_code(), Some(403));
    assert_eq!(Outcome::Admitted(status).response_code(), None);
    assert_eq!(Outcome::FailOpen.response_code(), None);
}

#[test]
fn outcomes_report_their_status() {
    let status = build_status(1, 5, 9);
    assert_eq!(Outcome::Admitted(status).status(), Some(status));
    assert_eq!(Outcome::Denied(status).status(), Some(status));
    assert_eq!(Outcome::Rejected.status(), None);
    assert_eq!(Outcome::FailOpen.status(), None);
}

#[test]
fn a_rejected_request_gets_no_rate_limit_headers() {
    let mut headers = HeaderMap::new();
    Outcome::Rejected.decorate(&mut headers);
    assert!(headers.is_empty());
}

#[test]
fn a_request_that_failed_open_gets_no_rate_limit_headers() {
    let mut headers = headers_with(&[("content-type", b"text/plain")]);
    Outcome::FailOpen.decorate(&mut headers);
    assert_eq!(headers.len(), 1);
    assert!(!headers.contains_key("x-ratelimit-limit"));
}

#[test]
fn a_denied_request_still_gets_the_rate_limit_headers() {
    let mut headers = HeaderMap::new();
    Outcome::Denied(build_status(6, 5, 77)).decorate(&mut headers);
    assert_eq!(values(&headers, "x-ratelimit-limit"), vec![b"5".to_vec()]);
    assert_eq!(values(&headers, "x-ratelimit-remaining"), vec![b"0".to_vec()]);
    assert_eq!(values(&headers, "x-ratelimit-reset"), vec![b"77".to_vec()]);
}

#[test]
fn an_admitted_request_gets_the_rate_limit_headers() {
    let mut headers = headers_with(&[("server", b"backend")]);
    Outcome::Admitted(build_status(1, 5, 77)).decorate(&mut headers);
    assert_eq!(values(&headers, "x-ratelimit-remaining"), vec![b"4".to_vec()]);
    assert_eq!(values(&headers, "server"), vec![b"backend".to_vec()]);
}

#[test]
fn rate_limiter_stores_the_header_in_lower_case() {
    let rate_limiter = RateLimiter::new(limiter(5, 10), "Authorization").unwrap();
    assert_eq!(rate_limiter.header(), "authorization");
    assert_eq!(rate_limiter.limiter().limit(), 5);
    let rate_limiter = RateLimiter::new(limiter(5, 10), "X-API_Key.v2").unwrap();
    assert_eq!(rate_limiter.header(), "x-api_key.v2");
}

#[test]
fn rate_limiter_refuses_what_is_no_header_name() {
    assert!(RateLimiter::new(limiter(5, 10), "").is_none());
    assert!(RateLimiter::new(limiter(5, 10), "two words").is_none());
    assert!(RateLimiter::new(limiter(5, 10), "colon:").is_none());
    assert!(RateLimiter::new(limiter(5, 10), "é").is_none());
    assert!(RateLimiter::new(limiter(5, 10), "a\0b").is_none());
}

#[test]
fn rate_limiter_refuses_a_name_that_is_too_long() {
    let long = "a".repeat(65536);
    assert!(RateLimiter::new(limiter(5, 10), long.as_str()).is_none());
    let longest = "a".repeat(65535);
    assert!(RateLimiter::new(limiter(5, 10), longest.as_str()).is_some());
}

#[test]
fn call_rejects_a_request_without_the_header() {
    let rate_limiter = RateLimiter::new(limiter(5, 10), "authorization").unwrap();
    let service = rate_limiter.new_transform();
    let headers = headers_with(&[("accept", b"*/*")]);
    match service.call(&headers) {
        Step::Finish(outcome) => {
            assert_eq!(outcome, Outcome::Rejected);
            assert_eq!(outcome.response_code(), Some(403));
        }
        Step::Count { .. } => panic!("a request without a key was counted"),
    }
}

#[test]
fn call_hands_out_the_transaction_for_the_key() {
    let rate_limiter = RateLimiter::new(limiter(5, 10), "Authorization").unwrap();
    let service = rate_limiter.new_transform();
    let headers = headers_with(&[("authorization", b"tok1")]);
    match service.call(&headers) {
        Step::Count { key, transaction } => {
            assert_eq!(key, "tok1");
            let same = rate_limiter.limiter().track("tok1");
            assert_eq!(
                transaction.get_packed_pipeline(true),
                same.get_packed_pipeline(true)
            );
            assert!(!transaction.get_packed_pipeline(true).is_empty());
        }
        Step::Finish(_) => panic!("a request with a key was not counted"),
    }
}

#[test]
fn resolve_admits_within_the_limit() {
    let rate_limiter = RateLimiter::new(limiter(5, 10), "authorization").unwrap();
    let service = rate_limiter.new_transform();
    match service.resolve(Ok((5, 10))) {
        Outcome::Admitted(status) => {
            assert_eq!(status.limit(), 5);
            assert_eq!(status.remaining(), 0);
        }
        other => panic!("expected the request to be admitted, got {:?}", other),
    }
}

#[test]
fn resolve_denies_beyond_the_limit() {
    let rate_limiter = RateLimiter::new(limiter(5, 10), "authorization").unwrap();
    let service = rate_limiter.new_transform();
    match service.resolve(Ok((6, 10))) {
        Outcome::Denied(status) => {
            assert_eq!(status.limit(), 5);
            assert_eq!(status.remaining(), 0);
        }
        other => panic!("expected the request to be denied, got {:?}", other),
    }
}

#[test]
fn resolve_fails_open_on_a_store_failure() {
    let rate_limiter = RateLimiter::new(limiter(5, 10), "authorization").unwrap();
    let service = rate_limiter.new_transform();
    let failure = RedisError::from((ErrorKind::IoError, "connection lost"));
    assert_eq!(service.resolve(Err(failure)), Outcome::FailOpen);
}

#[test]
fn resolve_decides_with_the_sentinel_on_a_ttl_that_is_too_long() {
    let rate_limiter = RateLimiter::new(limiter(5, 10), "authorization").unwrap();
    let service = rate_limiter.new_transform();
    match service.resolve(Ok((1, u64::MAX))) {
        Outcome::Admitted(status) => {
            assert_eq!(status.limit(), 5);
            assert_eq!(status.remaining(), 4);
            assert_eq!(status.reset_epoch_utc(), 0);
        }
        other => panic!("expected the request to be admitted, got {:?}", other),
    }
    match service.resolve(Ok((6, u64::MAX))) {
        Outcome::Denied(status) => {
            assert_eq!(status.remaining(), 0);
            assert_eq!(status.reset_epoch_utc(), 0);
        }
        other => panic!("expected the request to be denied, got {:?}", other),
    }
}
