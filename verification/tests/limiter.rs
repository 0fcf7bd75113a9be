use limitation::clock::MAX_TTL_SECS;
use limitation::limiter::{Error, Limiter, DEFAULT_LIMIT, DEFAULT_PERIOD_SECS};
use redis::{ErrorKind, RedisError};
use std::time::{SystemTime, UNIX_EPOCH};

fn limiter(limit: usize, period: u64) -> Limiter {
    Limiter::build("redis://127.0.0.1/").limit(limit).period(period).finish().unwrap()
}

fn unix_now() -> usize {
    SystemTime::now().duration_since(UNIX_EPOCH).unwrap().as_secs() as usize
}

#[test]
fn limiter_defaults_to_5000_requests_an_hour() {
    let limiter = Limiter::build("redis://127.0.0.1/").finish().unwrap();
    assert_eq!(limiter.limit(), 5000);
    assert_eq!(limiter.period(), 3600);
    assert_eq!(DEFAULT_LIMIT, 5000);
    assert_eq!(DEFAULT_PERIOD_SECS, 60 * 60);
}

#[test]
fn limiter_builder_sets_limit_and_period() {
    let limiter = limiter(5, 10);
    assert_eq!(limiter.limit(), 5);
    assert_eq!(limiter.period(), 10);
}

#[test]
fn limiter_builder_keeps_the_last_value_set() {
    let mut builder = Limiter::build("redis://127.0.0.1/");
    builder.limit(1).limit(2).period(3).period(4);
    let limiter = builder.finish().unwrap();
    assert_eq!(limiter.limit(), 2);
    assert_eq!(limiter.period(), 4);
}

#[test]
fn limiter_builder_can_finish_twice() {
    let mut builder = Limiter::build("redis://127.0.0.1/");
    builder.limit(7);
    let first = builder.finish().unwrap();
    let second = builder.finish().unwrap();
    assert_eq!(first.limit(), second.limit());
    assert_eq!(first.period(), second.period());
}

#[test]
fn limiter_refuses_what_is_no_redis_url() {
    let result = Limiter::build("not a url").finish();
    assert!(matches!(result, Err(Error::Client(_))));
    let result = Limiter::build("http://127.0.0.1/").finish();
    assert!(matches!(result, Err(Error::Client(_))));
}

#[test]
fn limiter_client_is_the_one_for_the_url() {
    let limiter = limiter(5, 10);
    let same = redis::Client::open("redis://127.0.0.1/").unwrap();
    assert_eq!(format!("{:?}", limiter.client()), format!("{:?}", same));
}

#[test]
fn limiter_tracks_with_its_own_period() {
    let limiter = limiter(5, 10);
    let packed = String::from_utf8(limiter.track("tok1").get_packed_pipeline(false)).unwrap();
    assert!(packed.contains("$2\r\nEX\r\n$2\r\n10\r\n"));
    assert!(packed.contains("$4\r\nINCR\r\n$4\r\ntok1\r\n"));
}

#[test]
fn decide_lets_the_first_limit_calls_through() {
    let limiter = limiter(5, 10);
    for count in 1..=5usize {
        let status = limiter.decide(count, 1234).unwrap();
        assert_eq!(status.limit(), 5);
        assert_eq!(status.remaining(), 5 - count);
        assert_eq!(status.reset_epoch_utc(), 1234);
    }
}

#[test]
fn decide_denies_the_call_after_the_limit() {
    let limiter = limiter(5, 10);
    match limiter.decide(6, 1234) {
        Err(Error::LimitExceeded(status)) => {
            assert_eq!(status.limit(), 5);
            assert_eq!(status.remaining(), 0);
            assert_eq!(status.reset_epoch_utc(), 1234);
        }
        other => panic!("expected the limit to be exceeded, got {:?}", other),
    }
    assert!(matches!(limiter.decide(usize::MAX, 0), Err(Error::LimitExceeded(_))));
}

#[test]
fn decide_with_a_limit_of_zero_denies_every_call() {
    let limiter = limiter(0, 10);
    assert!(matches!(limiter.decide(1, 0), Err(Error::LimitExceeded(_))));
    assert!(limiter.decide(0, 0).is_ok());
}

#[test]
fn count_decides_on_the_reply() {
    let limiter = limiter(5, 10);
    let before = unix_now();
    let status = limiter.count(Ok((2, 10))).unwrap();
    let after = unix_now();
    assert_eq!(status.limit(), 5);
    assert_eq!(status.remaining(), 3);
    assert!(before + 10 <= status.reset_epoch_utc());
    assert!(status.reset_epoch_utc() <= after + 11);
}

#[test]
fn count_beyond_the_limit_is_exceeded() {
    let limiter = limiter(5, 10);
    match limiter.count(Ok((6, 4))) {
        Err(Error::LimitExceeded(status)) => {
            assert_eq!(status.remaining(), 0);
            assert!(status.reset_epoch_utc() >= unix_now());
        }
        other => panic!("expected the limit to be exceeded, got {:?}", other),
    }
}

#[test]
fn count_hands_a_client_failure_on() {
    let limiter = limiter(5, 10);
    let failure = RedisError::from((ErrorKind::IoError, "connection lost"));
    match limiter.count(Err(failure)) {
        Err(Error::Client(error)) => assert_eq!(error.kind(), ErrorKind::IoError),
        other => panic!("expected a client error, got {:?}", other),
    }
}

#[test]
fn count_with_a_ttl_that_is_too_long_falls_back_to_the_sentinel() {
    let limiter = limiter(5, 10);
    let status = limiter.count(Ok((1, MAX_TTL_SECS + 1))).unwrap();
    assert_eq!(status.limit(), 5);
    assert_eq!(status.remaining(), 4);
    assert_eq!(status.reset_epoch_utc(), 0);
    let status = limiter.count(Ok((5, u64::MAX))).unwrap();
    assert_eq!(status.remaining(), 0);
    assert_eq!(status.reset_epoch_utc(), 0);
}

#[test]
fn count_beyond_the_limit_with_a_ttl_that_is_too_long_is_still_exceeded() {
    let limiter = limiter(5, 10);
    match limiter.count(Ok((9, u64::MAX))) {
        Err(Error::LimitExceeded(status)) => {
            assert_eq!(status.limit(), 5);
            assert_eq!(status.remaining(), 0);
            assert_eq!(status.reset_epoch_utc(), 0);
        }
        other => panic!("expected the limit to be exceeded, got {:?}", other),
    }
}

#[test]
fn count_with_the_longest_ttl_has_a_reset_time() {
    let limiter = limiter(5, 10);
    let status = limiter.count(Ok((1, MAX_TTL_SECS))).unwrap();
    assert!(status.reset_epoch_utc() >= MAX_TTL_SECS as usize);
}

#[test]
fn errors_are_made_from_the_outside_errors() {
    let failure = RedisError::from((ErrorKind::ResponseError, "bad reply"));
    assert!(matches!(Error::from(failure), Error::Client(_)));
    let too_long = std::time::Duration::from_secs(u64::MAX);
    let out_of_range = time::Duration::from_std(too_long).unwrap_err();
    assert!(matches!(Error::from(out_of_range), Error::Time(_)));
}
