use hextacy::cache::remote::{count_reply, delete_reply, read_reply, unavailable, write_reply};
use hextacy::driver::from_driver;
use hextacy::error::{CacheError, DatabaseError, DriverError};

fn unreachable() -> CacheError {
    CacheError::Unavailable("connection reset".to_string())
}

fn broken() -> CacheError {
    CacheError::Malformed("not text".to_string())
}

#[test]
fn failure_keeps_its_text_and_becomes_unavailable() {
    assert_eq!(unavailable(unreachable()), unreachable());
    assert_eq!(unavailable(broken()), CacheError::Unavailable("not text".to_string()));
    assert_eq!(
        unavailable(CacheError::Miss),
        CacheError::Unavailable("unexpected miss".to_string())
    );
}

#[test]
fn reply_to_a_read() {
    assert_eq!(read_reply(Ok(Some("v".to_string()))), Ok(Some("v".to_string())));
    assert_eq!(read_reply(Ok(None)), Ok(None));
    assert_eq!(read_reply(Err(CacheError::Miss)), Ok(None));
    assert_eq!(read_reply(Err(unreachable())), Err(unreachable()));
    assert_eq!(
        read_reply(Err(broken())),
        Err(CacheError::Unavailable("not text".to_string()))
    );
}

#[test]
fn reply_to_a_write() {
    assert_eq!(write_reply(Ok(())), Ok(()));
    assert_eq!(write_reply(Err(unreachable())), Err(unreachable()));
    assert_eq!(
        write_reply(Err(broken())),
        Err(CacheError::Unavailable("not text".to_string()))
    );
    assert_eq!(
        write_reply(Err(CacheError::Miss)),
        Err(CacheError::Unavailable("unexpected miss".to_string()))
    );
}

#[test]
fn reply_to_an_increment() {
    assert_eq!(count_reply(Ok(1)), Ok(1));
    assert_eq!(count_reply(Ok(i64::MIN)), Ok(i64::MIN));
    assert_eq!(count_reply(Err(broken())), Err(broken()));
    assert_eq!(count_reply(Err(unreachable())), Err(unreachable()));
    assert_eq!(
        count_reply(Err(CacheError::Miss)),
        Err(CacheError::Unavailable("unexpected miss".to_string()))
    );
}

#[test]
fn reply_to_a_delete() {
    assert_eq!(delete_reply(Ok(())), Ok(()));
    assert_eq!(delete_reply(Err(CacheError::Miss)), Ok(()));
    assert_eq!(delete_reply(Err(unreachable())), Err(unreachable()));
    assert_eq!(
        delete_reply(Err(broken())),
        Err(CacheError::Unavailable("not text".to_string()))
    );
}

#[test]
fn what_the_driver_returns_is_passed_on() {
    assert_eq!(from_driver(Ok("connection")), Ok("connection"));
    assert_eq!(
        from_driver::<u8>(Err(DriverError::PoolExhausted)),
        Err(DatabaseError::Driver(DriverError::PoolExhausted))
    );
    assert_eq!(
        from_driver::<u8>(Err(DriverError::ConnectionFailed("refused".to_string()))),
        Err(DatabaseError::Driver(DriverError::ConnectionFailed("refused".to_string())))
    );
}
