use hextacy::cache::access::Cache;
use hextacy::cache::codec::{decode_i64, encode_i64};
use hextacy::cache::key::CacheId;
use hextacy::cache::memory::MemoryCache;
use hextacy::cache::store::CacheStore;
use hextacy::cli::{Command, GenerateSubcommand, MigrationSubcommand, Xtc};
use hextacy::error::{AdapterError, CacheError, DatabaseError, DriverError, ResponseClass};
use hextacy::http::cookie::{create, csrf, SameSite, COOKIE_EXPIRATION};
use hextacy::http::response::{MessageResponse, Response};
use hextacy::session::{expires_at, AuthType, NewSession, OAuthProvider, Role, Session, User};

#[test]
fn numbers_are_written_as_json_and_read_back() {
    assert_eq!(encode_i64(0), "0");
    assert_eq!(encode_i64(42), "42");
    assert_eq!(encode_i64(-7), "-7");
    assert_eq!(encode_i64(i64::MAX), "9223372036854775807");
    assert_eq!(encode_i64(i64::MIN), "-9223372036854775808");
    assert_eq!(decode_i64("42"), Ok(42));
    assert_eq!(decode_i64("-9223372036854775808"), Ok(i64::MIN));
    assert_eq!(decode_i64(" 5 "), Ok(5));
    for v in [0, 1, -1, 1_700_000_000, i64::MAX, i64::MIN] {
        assert_eq!(decode_i64(&encode_i64(v)), Ok(v));
    }
}

#[test]
fn payloads_that_are_no_number_are_malformed() {
    for text in ["", "abc", "1.5", "9223372036854775808", "\"1\"", "1 2", "null"] {
        assert!(matches!(decode_i64(text), Err(CacheError::Malformed(_))), "{:?}", text);
    }
}

#[test]
fn every_category_has_its_tag() {
    assert_eq!(CacheId::LoginAttempts.as_str(), "auth:login_attempts");
    assert_eq!(CacheId::Session.as_str(), "auth:session");
    assert_eq!(CacheId::OTPToken.as_str(), "auth:otp");
    assert_eq!(CacheId::RegToken.as_str(), "auth:registration_token");
    assert_eq!(CacheId::PWToken.as_str(), "auth:set_pw");
    assert_eq!(CacheId::OTPThrottle.as_str(), "auth:otp_throttle");
    assert_eq!(CacheId::OTPAttempts.as_str(), "auth:otp_attempts");
    assert_eq!(CacheId::EmailThrottle.as_str(), "auth:email_throttle");
}

#[test]
fn keys_of_different_categories_or_identities_differ() {
    let ids = [
        CacheId::LoginAttempts,
        CacheId::Session,
        CacheId::OTPToken,
        CacheId::RegToken,
        CacheId::PWToken,
        CacheId::OTPThrottle,
        CacheId::OTPAttempts,
        CacheId::EmailThrottle,
    ];
    let identities = ["", "u1", "u:1", "_throttle:u1", ":", "otp:u1"];
    let mut seen = std::collections::HashSet::new();
    for id in ids {
        for identity in identities {
            assert!(seen.insert(Cache::prefix_id(id, identity)));
        }
    }
    assert_eq!(seen.len(), ids.len() * identities.len());
}

#[test]
fn increment_on_text_or_on_the_largest_number_is_malformed() {
    let mut cache = MemoryCache::new();
    cache.set("k", "text", None, 0).unwrap();
    assert!(matches!(cache.increment_or_init("k", 10, 0), Err(CacheError::Malformed(_))));
    assert_eq!(cache.get("k", 0), Ok(Some("text".to_string())));
    cache.set("m", "9223372036854775807", None, 0).unwrap();
    assert!(matches!(cache.increment_or_init("m", 10, 0), Err(CacheError::Malformed(_))));
    cache.set("n", "41", Some(5), 0).unwrap();
    assert_eq!(cache.increment_or_init("n", 100, 4), Ok(42));
    // the deadline of the entry stays: 5
    assert_eq!(cache.get("n", 5), Ok(None));
}

#[test]
fn deadline_that_no_clock_reaches_is_no_deadline() {
    let mut cache = MemoryCache::new();
    cache.set("k", "v", Some(usize::MAX), 10).unwrap();
    assert_eq!(cache.get("k", i64::MAX), Ok(Some("v".to_string())));
    cache.set("z", "v", Some(0), 10).unwrap();
    assert_eq!(cache.get("z", 10), Ok(None));
    assert_eq!(cache.get("z", 9), Ok(Some("v".to_string())));
    cache.set("e", "v", Some(1), i64::MAX - 1).unwrap();
    assert_eq!(cache.get("e", i64::MAX - 1), Ok(Some("v".to_string())));
    assert_eq!(cache.get("e", i64::MAX), Ok(None));
}

#[test]
fn overwrite_replaces_value_and_deadline() {
    let mut cache = MemoryCache::new();
    cache.set("k", "old", Some(5), 0).unwrap();
    cache.set("k", "new", Some(50), 3).unwrap();
    assert_eq!(cache.len(), 1);
    assert_eq!(cache.get("k", 52), Ok(Some("new".to_string())));
    assert_eq!(cache.get("k", 53), Ok(None));
    cache.set("other", "x", None, 0).unwrap();
    assert_eq!(cache.len(), 2);
    cache.delete("k").unwrap();
    assert_eq!(cache.len(), 1);
    assert_eq!(cache.get("other", 1_000_000), Ok(Some("x".to_string())));
}

#[test]
fn error_kinds_and_messages() {
    assert!(DriverError::PoolExhausted.is_retryable());
    assert!(!DriverError::ConnectionFailed("x".to_string()).is_retryable());
    assert_eq!(DriverError::PoolExhausted.message(), "Pool exhausted");
    assert_eq!(
        DriverError::ConnectionFailed("timed out".to_string()).message(),
        "Connection failed: timed out"
    );
    assert_eq!(
        DatabaseError::Driver(DriverError::PoolExhausted).message(),
        "Error while attempting to establish connection: Pool exhausted"
    );
    assert_eq!(
        DatabaseError::Backend("deadlock".to_string()).message(),
        "Backend error: deadlock"
    );
    assert!(DatabaseError::Driver(DriverError::PoolExhausted).is_retryable());
    assert!(!DatabaseError::Backend("x".to_string()).is_retryable());
}

#[test]
fn adapter_errors_are_shown_by_class() {
    assert!(AdapterError::DoesNotExist.is_not_found());
    assert!(!AdapterError::Conflict("dup".to_string()).is_not_found());
    assert_eq!(AdapterError::DoesNotExist.response_class(), ResponseClass::NotFound);
    assert_eq!(
        AdapterError::Conflict("dup".to_string()).response_class(),
        ResponseClass::Failure
    );
    assert_eq!(
        AdapterError::Database(DatabaseError::Driver(DriverError::PoolExhausted)).response_class(),
        ResponseClass::ServiceUnavailable
    );
    assert_eq!(
        AdapterError::Database(DatabaseError::Driver(DriverError::ConnectionFailed(
            "x".to_string()
        )))
        .response_class(),
        ResponseClass::ServiceUnavailable
    );
    assert_eq!(
        AdapterError::Database(DatabaseError::Backend("x".to_string())).response_class(),
        ResponseClass::Failure
    );
}

#[test]
fn csrf_cookie_is_http_only_and_secure() {
    let cookie = csrf("token-1");
    assert_eq!(cookie.name, "x-csrf-token");
    assert_eq!(cookie.value, "token-1");
    assert_eq!(cookie.max_age, COOKIE_EXPIRATION);
    assert_eq!(cookie.max_age, 86_400);
    assert_eq!(cookie.same_site, SameSite::Unrestricted);
    assert!(cookie.http_only);
    assert!(cookie.secure);
}

#[test]
fn created_cookie_defaults_to_lax() {
    let cookie = create("session", "{\"id\":1}", None);
    assert_eq!(cookie.name, "session");
    assert_eq!(cookie.value, "{\"id\":1}");
    assert_eq!(cookie.same_site, SameSite::Lax);
    assert!(!cookie.http_only);
    assert!(cookie.secure);
    assert_eq!(create("k", "v", Some(SameSite::Strict)).same_site, SameSite::Strict);
}

#[test]
fn response_collects_cookies_and_headers_in_order() {
    let response = MessageResponse::new("done");
    assert_eq!(response.message, "done");
    let builder = response.to_response(201);
    assert_eq!(builder.code, 201);
    assert!(builder.cookies.is_empty());
    assert!(builder.headers.is_empty());
    let builder = builder
        .with_cookies(vec![csrf("a")])
        .with_headers(vec![("x-one".to_string(), "1".to_string())])
        .with_cookies(vec![csrf("b"), csrf("c")])
        .with_headers(vec![("x-two".to_string(), "2".to_string())]);
    let values: Vec<&str> = builder.cookies.iter().map(|c| c.value.as_str()).collect();
    assert_eq!(values, vec!["a", "b", "c"]);
    assert_eq!(
        builder.headers,
        vec![
            ("x-one".to_string(), "1".to_string()),
            ("x-two".to_string(), "2".to_string())
        ]
    );
    assert_eq!(builder.code, 201);
    assert_eq!(builder.body.message, "done");
}

fn user() -> User {
    User {
        id: "u1".to_string(),
        email: "u1@example.com".to_string(),
        username: "one".to_string(),
        phone: Some("555".to_string()),
        role: Role::User,
    }
}

#[test]
fn new_session_takes_the_users_data() {
    let new = NewSession::prepare(&user(), "csrf", Some(600), None, None, 1_000);
    assert_eq!(
        new,
        NewSession {
            user_id: "u1".to_string(),
            username: "one".to_string(),
            email: "u1@example.com".to_string(),
            phone: Some("555".to_string()),
            role: Role::User,
            csrf: "csrf".to_string(),
            oauth_token: None,
            expires_at: Some(1_600),
            auth_type: AuthType::Native,
        }
    );
    let oauth =
        NewSession::prepare(&user(), "c", None, Some("tok"), Some(OAuthProvider::Github), 5);
    assert_eq!(oauth.expires_at, None);
    assert_eq!(oauth.oauth_token, Some("tok".to_string()));
    assert_eq!(oauth.auth_type, AuthType::OAuth(OAuthProvider::Github));
}

#[test]
fn session_expiry_is_clamped() {
    assert_eq!(expires_at(100, None), None);
    assert_eq!(expires_at(100, Some(0)), Some(100));
    assert_eq!(expires_at(100, Some(-200)), Some(-100));
    assert_eq!(expires_at(i64::MAX, Some(1)), None);
    assert_eq!(expires_at(i64::MAX - 1, Some(1)), Some(i64::MAX));
    assert_eq!(expires_at(i64::MIN, Some(-1)), Some(i64::MIN));
    assert_eq!(AuthType::from_provider(None), AuthType::Native);
    assert_eq!(
        AuthType::from_provider(Some(OAuthProvider::Google)),
        AuthType::OAuth(OAuthProvider::Google)
    );
}

#[test]
fn session_is_live_until_it_expires() {
    let mut session = Session {
        id: "s".to_string(),
        user_id: "u1".to_string(),
        username: "one".to_string(),
        email: "e".to_string(),
        phone: None,
        role: Role::Admin,
        csrf: "c".to_string(),
        oauth_token: None,
        expires_at: Some(10),
        auth_type: AuthType::Native,
    };
    assert!(session.is_live(9));
    assert!(!session.is_live(10));
    session.expires_at = None;
    assert!(session.is_live(i64::MAX));
}

#[test]
fn commands_are_announced() {
    let generate = [Command::Generate, Command::Gen, Command::G];
    for make in generate {
        assert_eq!(make(GenerateSubcommand::Route).describe(), "Generating route");
        assert_eq!(make(GenerateSubcommand::R).describe(), "Generating route");
        assert_eq!(make(GenerateSubcommand::Middleware).describe(), "Generating middleware");
        assert_eq!(make(GenerateSubcommand::MW).describe(), "Generating middleware");
    }
    let migration = [Command::Migration, Command::Mig, Command::M];
    for make in migration {
        assert_eq!(make(MigrationSubcommand::Gen).describe(), "Generating migration");
        assert_eq!(make(MigrationSubcommand::Run).describe(), "Running migrations");
        assert_eq!(make(MigrationSubcommand::Rev).describe(), "Reversing migration");
        assert_eq!(make(MigrationSubcommand::Redo).describe(), "Restarting migration");
    }
    assert_eq!(Command::Envex.describe(), "Generating .env.example");
    assert_eq!(Command::Crypto.describe(), "Cryptographying");
    assert_eq!(Command::C.describe(), "Cryptographying");
    assert_eq!(Command::Interactive.describe(), "Initiating interactive session");
    assert_eq!(Xtc { command: Command::I }.command.describe(), "Initiating interactive session");
}

#[test]
fn links_carry_domain_and_token() {
    assert_eq!(
        hextacy::links::registration_uri("https://example.com", "abc"),
        "https://example.com/auth/verify-registration-token?token=abc"
    );
    assert_eq!(
        hextacy::links::reset_password_uri("https://example.com", "abc"),
        "https://example.com/auth/reset-password?token=abc"
    );
    assert_eq!(hextacy::links::reset_password_uri("", ""), "/auth/reset-password?token=");
}
