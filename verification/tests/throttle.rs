use hextacy::cache::access::Cache;
use hextacy::cache::key::CacheId;
use hextacy::cache::memory::MemoryCache;
use hextacy::cache::remote::{CacheClient, Remote};
use hextacy::cache::store::CacheStore;
use hextacy::error::CacheError;
use hextacy::throttle::{
    attempts_exceeded, attempts_on_record, decide, in_cooldown, Decision, Throttle, ThrottleConfig,
};

fn config() -> ThrottleConfig {
    ThrottleConfig { login_attempts: 3_600, otp_throttle: 300, email_throttle: 30, session: 86_400 }
}

/// A client whose server cannot be reached.
struct Unreachable;

impl CacheClient for Unreachable {
    fn get(&mut self, _key: &str) -> Result<Option<String>, CacheError> {
        Err(CacheError::Unavailable("connection refused".to_string()))
    }

    fn set(&mut self, _key: &str, _payload: &str, _ttl: Option<usize>) -> Result<(), CacheError> {
        Err(CacheError::Unavailable("connection refused".to_string()))
    }

    fn increment_or_init(&mut self, _key: &str, _ttl: usize) -> Result<i64, CacheError> {
        Err(CacheError::Unavailable("connection refused".to_string()))
    }

    fn delete(&mut self, _key: &str) -> Result<(), CacheError> {
        Err(CacheError::Unavailable("connection refused".to_string()))
    }
}

/// A client of a server that keeps what it is given, and whose reads fail
/// in the ways a client library's may.
#[derive(Default)]
struct Scripted {
    get: Option<Result<Option<String>, CacheError>>,
    writes: Vec<(String, String, Option<usize>)>,
    deleted: Vec<String>,
    fail_writes_after: Option<usize>,
}

impl CacheClient for Scripted {
    fn get(&mut self, _key: &str) -> Result<Option<String>, CacheError> {
        self.get.clone().unwrap_or(Ok(None))
    }

    fn set(&mut self, key: &str, payload: &str, ttl: Option<usize>) -> Result<(), CacheError> {
        if self.fail_writes_after == Some(self.writes.len()) {
            return Err(CacheError::Malformed("bad reply".to_string()));
        }
        self.writes.push((key.to_string(), payload.to_string(), ttl));
        Ok(())
    }

    fn increment_or_init(&mut self, _key: &str, _ttl: usize) -> Result<i64, CacheError> {
        Err(CacheError::Miss)
    }

    fn delete(&mut self, key: &str) -> Result<(), CacheError> {
        self.deleted.push(key.to_string());
        Err(CacheError::Miss)
    }
}

#[test]
fn three_failed_logins_then_rejection_then_miss_after_delete() {
    let mut throttle = Throttle::new(MemoryCache::new(), config());
    let now = 1_700_000_000;
    assert_eq!(throttle.login_attempts("u1", now), Err(CacheError::Miss));
    assert_eq!(throttle.cache_login_attempt("u1", now), Ok(1));
    assert_eq!(throttle.cache_login_attempt("u1", now + 1), Ok(2));
    assert_eq!(throttle.cache_login_attempt("u1", now + 2), Ok(3));
    let reading = throttle.login_attempts("u1", now + 3);
    assert_eq!(reading, Ok(3));
    // a fourth attempt, with the caller's threshold of 3, is turned away
    assert_eq!(decide(&reading, 3, Decision::Reject), Decision::Reject);
    assert!(attempts_exceeded(3, 3));
    assert!(!attempts_exceeded(2, 3));
    assert_eq!(throttle.delete_login_attempts("u1"), Ok(()));
    assert_eq!(throttle.login_attempts("u1", now + 4), Err(CacheError::Miss));
    assert_eq!(
        decide(&throttle.login_attempts("u1", now + 4), 3, Decision::Reject),
        Decision::Allow
    );
}

#[test]
fn login_counter_is_filed_under_the_users_key() {
    let mut throttle = Throttle::new(MemoryCache::new(), config());
    throttle.cache_login_attempt("u1", 10).unwrap();
    assert_eq!(throttle.store.get("auth:login_attempts:u1", 10), Ok(Some("1".to_string())));
    assert_eq!(throttle.login_attempts("u2", 10), Err(CacheError::Miss));
}

#[test]
fn login_counter_expires_with_the_first_attempts_deadline() {
    let mut throttle = Throttle::new(MemoryCache::new(), config());
    assert_eq!(throttle.cache_login_attempt("u1", 1_000), Ok(1));
    assert_eq!(throttle.cache_login_attempt("u1", 4_000), Ok(2));
    assert_eq!(throttle.login_attempts("u1", 4_599), Ok(2));
    assert_eq!(throttle.login_attempts("u1", 4_600), Err(CacheError::Miss));
    assert_eq!(throttle.cache_login_attempt("u1", 4_600), Ok(1));
}

#[test]
fn many_increments_lose_no_update() {
    let mut throttle = Throttle::new(MemoryCache::new(), config());
    for i in 1..=200 {
        assert_eq!(throttle.cache_login_attempt("u1", 50), Ok(i));
    }
    assert_eq!(throttle.login_attempts("u1", 50), Ok(200));
    assert_eq!(throttle.store.len(), 1);
}

#[test]
fn otp_attempt_refreshes_stamp_and_count_together() {
    let mut throttle = Throttle::new(MemoryCache::new(), config());
    assert_eq!(throttle.cache_otp_throttle("u1", 1_000), Ok(0));
    assert_eq!(throttle.get_otp_throttle(CacheId::OTPThrottle, "u1", 1_000), Ok(1_000));
    assert_eq!(throttle.get_otp_throttle(CacheId::OTPAttempts, "u1", 1_000), Ok(1));
    assert_eq!(throttle.cache_otp_throttle("u1", 1_200), Ok(1));
    assert_eq!(throttle.get_otp_throttle(CacheId::OTPThrottle, "u1", 1_200), Ok(1_200));
    assert_eq!(throttle.get_otp_throttle(CacheId::OTPAttempts, "u1", 1_200), Ok(2));
    // both live 300 seconds from the last attempt
    assert_eq!(throttle.get_otp_throttle(CacheId::OTPAttempts, "u1", 1_499), Ok(2));
    assert_eq!(
        throttle.get_otp_throttle(CacheId::OTPAttempts, "u1", 1_500),
        Err(CacheError::Miss)
    );
    assert_eq!(
        throttle.get_otp_throttle(CacheId::OTPThrottle, "u1", 1_500),
        Err(CacheError::Miss)
    );
}

#[test]
fn otp_throttle_is_cleared_as_one() {
    let mut throttle = Throttle::new(MemoryCache::new(), config());
    throttle.cache_otp_throttle("u1", 1_000).unwrap();
    assert_eq!(throttle.delete_otp_throttle("u1"), Ok(()));
    assert_eq!(
        throttle.get_otp_throttle(CacheId::OTPThrottle, "u1", 1_000),
        Err(CacheError::Miss)
    );
    assert_eq!(
        throttle.get_otp_throttle(CacheId::OTPAttempts, "u1", 1_000),
        Err(CacheError::Miss)
    );
    assert_eq!(throttle.delete_otp_throttle("u1"), Ok(()));
    assert_eq!(throttle.cache_otp_throttle("u1", 1_001), Ok(0));
}

#[test]
fn otp_count_that_is_no_number_starts_over() {
    let mut throttle = Throttle::new(MemoryCache::new(), config());
    throttle.set_token(CacheId::OTPAttempts, "u1", "many", None, 5).unwrap();
    assert!(matches!(
        throttle.get_otp_throttle(CacheId::OTPAttempts, "u1", 5),
        Err(CacheError::Malformed(_))
    ));
    assert_eq!(throttle.cache_otp_throttle("u1", 5), Ok(0));
    assert_eq!(throttle.get_otp_throttle(CacheId::OTPAttempts, "u1", 5), Ok(1));
}

#[test]
fn otp_count_at_the_top_stays_there() {
    let mut throttle = Throttle::new(MemoryCache::new(), config());
    Cache::set_i64(CacheId::OTPAttempts, "u1", i64::MAX, None, &mut throttle.store, 5).unwrap();
    assert_eq!(throttle.cache_otp_throttle("u1", 5), Ok(i64::MAX));
    assert_eq!(throttle.get_otp_throttle(CacheId::OTPAttempts, "u1", 5), Ok(i64::MAX));
}

#[test]
fn unreachable_cache_is_an_error_not_a_miss() {
    let mut throttle = Throttle::new(Remote::new(Unreachable), config());
    assert!(matches!(
        throttle.login_attempts("u1", 0),
        Err(CacheError::Unavailable(_))
    ));
    assert!(matches!(
        throttle.cache_login_attempt("u1", 0),
        Err(CacheError::Unavailable(_))
    ));
    assert!(matches!(
        throttle.cache_otp_throttle("u1", 0),
        Err(CacheError::Unavailable(_))
    ));
    assert!(matches!(throttle.delete_otp_throttle("u1"), Err(CacheError::Unavailable(_))));
    assert!(matches!(throttle.delete_login_attempts("u1"), Err(CacheError::Unavailable(_))));
    assert!(matches!(throttle.set_email_throttle("u1", 0), Err(CacheError::Unavailable(_))));
    // the caller chooses between failing open and failing closed
    let reading = throttle.login_attempts("u1", 0);
    assert_eq!(decide(&reading, 3, Decision::Reject), Decision::Reject);
    assert_eq!(decide(&reading, 3, Decision::Allow), Decision::Allow);
}

#[test]
fn email_throttle_marks_and_expires() {
    let mut throttle = Throttle::new(MemoryCache::new(), config());
    assert_eq!(throttle.get_email_throttle("u1", 100), Err(CacheError::Miss));
    assert_eq!(throttle.set_email_throttle("u1", 100), Ok(()));
    assert_eq!(throttle.get_email_throttle("u1", 129), Ok(1));
    assert_eq!(throttle.get_email_throttle("u1", 130), Err(CacheError::Miss));
}

#[test]
fn tokens_and_sessions_are_stored_and_read_back() {
    let mut throttle = Throttle::new(MemoryCache::new(), config());
    throttle.set_token(CacheId::RegToken, "tok", "user-7", Some(60), 0).unwrap();
    assert_eq!(throttle.get_token(CacheId::RegToken, "tok", 59), Ok("user-7".to_string()));
    assert_eq!(throttle.get_token(CacheId::PWToken, "tok", 59), Err(CacheError::Miss));
    assert_eq!(throttle.get_token(CacheId::RegToken, "tok", 60), Err(CacheError::Miss));
    throttle.set_token(CacheId::RegToken, "tok", "user-8", None, 0).unwrap();
    assert_eq!(
        throttle.get_token(CacheId::RegToken, "tok", i64::MAX),
        Ok("user-8".to_string())
    );
    assert_eq!(throttle.delete_token(CacheId::RegToken, "tok"), Ok(()));
    assert_eq!(throttle.get_token(CacheId::RegToken, "tok", 0), Err(CacheError::Miss));

    throttle.set_session("sid", "{\"id\":\"sid\"}", 1_000).unwrap();
    assert_eq!(
        throttle.get_token(CacheId::Session, "sid", 87_399),
        Ok("{\"id\":\"sid\"}".to_string())
    );
    assert_eq!(throttle.get_token(CacheId::Session, "sid", 87_400), Err(CacheError::Miss));
}

#[test]
fn cooldown_counts_from_the_stamp() {
    assert!(in_cooldown(1_000, 1_000, 30));
    assert!(in_cooldown(1_029, 1_000, 30));
    assert!(!in_cooldown(1_030, 1_000, 30));
    assert!(!in_cooldown(i64::MAX, i64::MIN, i64::MAX));
    assert!(in_cooldown(i64::MIN, i64::MAX, 0));
    assert!(!in_cooldown(5, 5, 0));
}

#[test]
fn decision_for_each_reading() {
    assert_eq!(decide(&Ok(0), 3, Decision::Reject), Decision::Allow);
    assert_eq!(decide(&Ok(2), 3, Decision::Reject), Decision::Allow);
    assert_eq!(decide(&Ok(3), 3, Decision::Allow), Decision::Reject);
    assert_eq!(decide(&Ok(4), 3, Decision::Allow), Decision::Reject);
    assert_eq!(decide(&Err(CacheError::Miss), 0, Decision::Reject), Decision::Allow);
    let broken = Err(CacheError::Malformed("x".to_string()));
    assert_eq!(decide(&broken, 3, Decision::Reject), Decision::Reject);
    assert_eq!(decide(&broken, 3, Decision::Allow), Decision::Allow);
}

#[test]
fn remote_store_issues_both_otp_writes_with_the_ttl() {
    let client = Scripted { get: Some(Ok(Some("4".to_string()))), ..Scripted::default() };
    let mut throttle = Throttle::new(Remote::new(client), config());
    assert_eq!(throttle.cache_otp_throttle("u9", 777), Ok(4));
    assert_eq!(
        throttle.store.client.writes,
        vec![
            ("auth:otp_throttle:u9".to_string(), "777".to_string(), Some(300)),
            ("auth:otp_attempts:u9".to_string(), "5".to_string(), Some(300)),
        ]
    );
}

#[test]
fn remote_store_failure_between_the_otp_writes_is_unavailable() {
    let client = Scripted { fail_writes_after: Some(1), ..Scripted::default() };
    let mut throttle = Throttle::new(Remote::new(client), config());
    assert_eq!(
        throttle.cache_otp_throttle("u9", 777),
        Err(CacheError::Unavailable("bad reply".to_string()))
    );
    assert_eq!(throttle.store.client.writes.len(), 1);
}

#[test]
fn remote_store_brings_client_failures_to_the_expected_kinds() {
    let mut store = Remote::new(Scripted {
        get: Some(Err(CacheError::Miss)),
        ..Scripted::default()
    });
    assert_eq!(store.get("k", 0), Ok(None));
    assert_eq!(store.delete("k"), Ok(()));
    assert_eq!(store.client.deleted, vec!["k".to_string()]);
    assert!(matches!(store.increment_or_init("k", 1, 0), Err(CacheError::Unavailable(_))));
    let mut broken = Remote::new(Scripted {
        get: Some(Err(CacheError::Malformed("not text".to_string()))),
        ..Scripted::default()
    });
    assert_eq!(broken.get("k", 0), Err(CacheError::Unavailable("not text".to_string())));
    assert_eq!(
        Cache::get(CacheId::Session, "s", &mut broken, 0),
        Err(CacheError::Unavailable("not text".to_string()))
    );
}

#[test]
fn unreachable_cache_and_absent_key_are_told_apart_by_get() {
    let mut absent = Remote::new(Scripted::default());
    assert_eq!(Cache::get(CacheId::Session, "s", &mut absent, 0), Err(CacheError::Miss));
    let mut unreachable = Remote::new(Unreachable);
    assert_eq!(
        Cache::get(CacheId::Session, "s", &mut unreachable, 0),
        Err(CacheError::Unavailable("connection refused".to_string()))
    );
    assert_eq!(
        Cache::get_i64(CacheId::Session, "s", &mut unreachable, 0),
        Err(CacheError::Unavailable("connection refused".to_string()))
    );
    let mut memory = MemoryCache::new();
    assert_eq!(Cache::get(CacheId::Session, "s", &mut memory, 0), Err(CacheError::Miss));
}

#[test]
fn failed_delete_and_failed_write_are_passed_on() {
    let mut unreachable = Remote::new(Unreachable);
    assert_eq!(
        Cache::delete(CacheId::LoginAttempts, "u1", &mut unreachable),
        Err(CacheError::Unavailable("connection refused".to_string()))
    );
    assert_eq!(
        Cache::set(CacheId::Session, "s", "{}", Some(5), &mut unreachable, 0),
        Err(CacheError::Unavailable("connection refused".to_string()))
    );
    assert_eq!(
        Cache::set_i64(CacheId::OTPAttempts, "u1", 3, None, &mut unreachable, 0),
        Err(CacheError::Unavailable("connection refused".to_string()))
    );
}

#[test]
fn failed_read_of_the_otp_count_writes_nothing() {
    let client = Scripted {
        get: Some(Err(CacheError::Unavailable("timed out".to_string()))),
        ..Scripted::default()
    };
    let mut throttle = Throttle::new(Remote::new(client), config());
    assert_eq!(
        throttle.cache_otp_throttle("u9", 777),
        Err(CacheError::Unavailable("timed out".to_string()))
    );
    assert!(throttle.store.client.writes.is_empty());
    assert!(throttle.store.client.deleted.is_empty());
}

#[test]
fn unreachable_cache_never_reads_as_a_first_login_attempt() {
    let mut throttle = Throttle::new(Remote::new(Unreachable), config());
    assert_eq!(
        throttle.cache_login_attempt("u1", 0),
        Err(CacheError::Unavailable("connection refused".to_string()))
    );
    assert_eq!(
        throttle.cache_login_attempt("u1", i64::MAX),
        Err(CacheError::Unavailable("connection refused".to_string()))
    );
}

#[test]
fn reading_of_the_otp_count_decides_the_attempt() {
    assert_eq!(attempts_on_record(Ok(4)), Ok(4));
    assert_eq!(attempts_on_record(Ok(-1)), Ok(-1));
    assert_eq!(attempts_on_record(Err(CacheError::Miss)), Ok(0));
    assert_eq!(attempts_on_record(Err(CacheError::Malformed("x".to_string()))), Ok(0));
    assert_eq!(
        attempts_on_record(Err(CacheError::Unavailable("down".to_string()))),
        Err(CacheError::Unavailable("down".to_string()))
    );
}

#[test]
fn result_of_a_read_is_made_from_the_stores_answer() {
    assert_eq!(Cache::payload(Ok(Some("v".to_string()))), Ok("v".to_string()));
    assert_eq!(Cache::payload(Ok(None)), Err(CacheError::Miss));
    assert_eq!(
        Cache::payload(Err(CacheError::Unavailable("down".to_string()))),
        Err(CacheError::Unavailable("down".to_string()))
    );
    assert_eq!(Cache::number(Ok(Some("12".to_string()))), Ok(12));
    assert!(matches!(
        Cache::number(Ok(Some("twelve".to_string()))),
        Err(CacheError::Malformed(_))
    ));
    assert_eq!(Cache::number(Ok(None)), Err(CacheError::Miss));
    assert_eq!(
        Cache::number(Err(CacheError::Unavailable("down".to_string()))),
        Err(CacheError::Unavailable("down".to_string()))
    );
}
