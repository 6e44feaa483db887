use hextacy::cache::access::Cache;
use hextacy::cache::key::CacheId;
use hextacy::cache::memory::MemoryCache;
use hextacy::cache::store::CacheStore;
use hextacy::error::CacheError;

#[test]
fn prefix_id_joins_tag_and_identity() {
    assert_eq!(Cache::prefix_id(CacheId::LoginAttempts, "u1"), "auth:login_attempts:u1");
    assert_eq!(Cache::prefix_id(CacheId::Session, "abc"), "auth:session:abc");
    assert_eq!(Cache::prefix_id(CacheId::OTPToken, ""), "auth:otp:");
    assert_eq!(Cache::prefix_id(CacheId::RegToken, "t"), "auth:registration_token:t");
    assert_eq!(Cache::prefix_id(CacheId::PWToken, "t"), "auth:set_pw:t");
}

#[test]
fn set_then_get_before_and_after_expiry() {
    let mut cache = MemoryCache::new();
    Cache::set(CacheId::Session, "s1", "\"payload\"", Some(60), &mut cache, 1_000).unwrap();
    assert_eq!(
        Cache::get(CacheId::Session, "s1", &mut cache, 1_000),
        Ok("\"payload\"".to_string())
    );
    assert_eq!(
        Cache::get(CacheId::Session, "s1", &mut cache, 1_059),
        Ok("\"payload\"".to_string())
    );
    assert_eq!(
        Cache::get(CacheId::Session, "s1", &mut cache, 1_060),
        Err(CacheError::Miss)
    );
}

#[test]
fn delete_of_absent_key_succeeds() {
    let mut cache = MemoryCache::new();
    assert_eq!(Cache::delete(CacheId::LoginAttempts, "nobody", &mut cache), Ok(()));
    assert_eq!(cache.len(), 0);
    assert_eq!(Cache::delete(CacheId::LoginAttempts, "nobody", &mut cache), Ok(()));
}

#[test]
fn increment_or_init_counts_and_keeps_the_first_deadline() {
    let mut cache = MemoryCache::new();
    assert_eq!(cache.increment_or_init("k", 10, 100), Ok(1));
    assert_eq!(cache.increment_or_init("k", 10, 105), Ok(2));
    assert_eq!(cache.increment_or_init("k", 10, 109), Ok(3));
    assert_eq!(cache.get("k", 109), Ok(Some("3".to_string())));
    // the deadline is the one set at the first call: 110
    assert_eq!(cache.get("k", 110), Ok(None));
    assert_eq!(cache.increment_or_init("k", 10, 110), Ok(1));
}

#[test]
fn purge_drops_only_what_has_expired() {
    let mut cache = MemoryCache::new();
    cache.set("a", "1", Some(10), 0).unwrap();
    cache.set("b", "2", Some(20), 0).unwrap();
    cache.set("c", "3", None, 0).unwrap();
    assert_eq!(cache.purge(9), 0);
    assert_eq!(cache.len(), 3);
    assert_eq!(cache.purge(10), 1);
    assert_eq!(cache.len(), 2);
    assert_eq!(cache.get("a", 10), Ok(None));
    assert_eq!(cache.get("b", 10), Ok(Some("2".to_string())));
    assert_eq!(cache.purge(1_000), 1);
    assert_eq!(cache.len(), 1);
    assert_eq!(cache.get("c", i64::MAX), Ok(Some("3".to_string())));
    assert_eq!(cache.purge(i64::MAX), 0);
    assert_eq!(MemoryCache::new().purge(0), 0);
}

#[test]
fn purge_of_neighbouring_expired_entries() {
    let mut cache = MemoryCache::new();
    for (i, key) in ["a", "b", "c", "d", "e"].iter().enumerate() {
        let ttl = if i % 2 == 0 { 100 } else { 1 };
        cache.set(key, "v", Some(ttl), 0).unwrap();
    }
    cache.set("f", "v", Some(1), 0).unwrap();
    cache.set("g", "v", Some(1), 0).unwrap();
    assert_eq!(cache.purge(50), 4);
    assert_eq!(cache.len(), 3);
    for key in ["a", "c", "e"] {
        assert_eq!(cache.get(key, 50), Ok(Some("v".to_string())));
    }
    for key in ["b", "d", "f", "g"] {
        assert_eq!(cache.get(key, 0), Ok(None));
    }
}
