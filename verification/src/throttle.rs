//! The rate limiter: attempt counters and time stamps in a cache.
//!
//! The limiter only keeps count and time. Whether a count or a time stamp
//! means that a request is turned away is the caller's policy, for which
//! [`attempts_exceeded`], [`in_cooldown`] and [`decide`] are at hand.
//!
//! For each identity the cache holds, each under a key of its own: the
//! number of failed logins, the number of one-time-code attempts, the time
//! of the last one-time-code attempt, and a mark that an e-mail went out.

use crate::cache::access::{last_found, number_of, payload_of, read, read_i64, Cache};
use crate::cache::codec::{i64_of_json, json_of_i64};
use crate::cache::key::{cache_key, law_cache_key_injective, CacheId};
use crate::cache::store::{
    answered, bumped, lookup, written, CacheStore, Entry, Exchange, Reply, Request,
};
use crate::error::CacheError;
use vstd::prelude::*;

verus! {

/// How long the limiter's records live, in seconds.
#[derive(Debug, Clone, Copy, PartialEq, Eq)]
pub struct ThrottleConfig {
    /// The count of failed logins.
    pub login_attempts: usize,
    /// The count and the time stamp of one-time-code attempts.
    pub otp_throttle: usize,
    /// The mark that an e-mail went out.
    pub email_throttle: usize,
    /// A cached session.
    pub session: usize,
}

/// Whether `count` attempts use up a limit of `threshold`.
pub open spec fn exceeded(count: i64, threshold: i64) -> bool {
    count >= threshold
}

/// Whether `count` attempts use up a limit of `threshold`.
pub fn attempts_exceeded(count: i64, threshold: i64) -> (over: bool)
    ensures
        over == exceeded(count, threshold),
{
    count >= threshold
}

/// Whether at `now` less than `cooldown` seconds have passed since
/// `set_at`.
pub open spec fn cooling(now: i64, set_at: i64, cooldown: i64) -> bool {
    now - set_at < cooldown
}

/// Whether at `now` less than `cooldown` seconds have passed since
/// `set_at`.
pub fn in_cooldown(now: i64, set_at: i64, cooldown: i64) -> (waiting: bool)
    ensures
        waiting == cooling(now, set_at, cooldown),
{
    let passed: i128 = now as i128 - set_at as i128;
    passed < cooldown as i128
}

/// What the caller does with a request.
#[derive(Debug, Clone, Copy, PartialEq, Eq, Structural)]
pub enum Decision {
    Allow,
    Reject,
}

/// The decision for a counter reading under a limit of `threshold`: allow
/// on a miss, which is a fresh identity; reject from `threshold` attempts
/// on; and `unreadable`, the caller's choice between failing open and
/// failing closed, where the cache could not be reached or holds no number.
pub open spec fn decision(reading: Result<i64, CacheError>, threshold: i64, unreadable: Decision)
    -> Decision {
    match reading {
        Ok(count) => if exceeded(count, threshold) {
            Decision::Reject
        } else {
            Decision::Allow
        },
        Err(CacheError::Miss) => Decision::Allow,
        Err(_) => unreadable,
    }
}

/// Decides on a request from the reading of its attempt counter.
pub fn decide(reading: &Result<i64, CacheError>, threshold: i64, unreadable: Decision) -> (d:
    Decision)
    ensures
        d == decision(*reading, threshold, unreadable),
{
    match reading {
        Ok(count) => if attempts_exceeded(*count, threshold) {
            Decision::Reject
        } else {
            Decision::Allow
        },
        Err(CacheError::Miss) => Decision::Allow,
        Err(_) => unreadable,
    }
}

/// The one-time-code attempts of `user` on record at `now`: the stored
/// count, or none where nothing live is stored or what is stored is no
/// number.
pub open spec fn otp_attempts(entries: Map<Seq<char>, Entry>, user: Seq<char>, now: i64) -> i64 {
    match lookup(entries, cache_key(CacheId::OTPAttempts, user), now) {
        Some(payload) => match i64_of_json(payload) {
            Some(count) => count,
            None => 0,
        },
        None => 0,
    }
}

/// One more than `count`, or `count` where it cannot grow.
pub open spec fn one_more(count: i64) -> i64 {
    if count < i64::MAX {
        (count + 1) as i64
    } else {
        count
    }
}

/// The entries after the time of `user`'s one-time-code attempt at `now` is
/// on record.
pub open spec fn otp_stamped(
    entries: Map<Seq<char>, Entry>,
    user: Seq<char>,
    ttl: usize,
    now: i64,
) -> Map<Seq<char>, Entry> {
    written(entries, cache_key(CacheId::OTPThrottle, user), json_of_i64(now), Some(ttl), now)
}

/// The entries after `user`'s one-time-code attempt at `now` is on record:
/// the time stamp is `now`, the count is one more than before, and both
/// live for `ttl` seconds from `now`.
pub open spec fn otp_recorded(
    entries: Map<Seq<char>, Entry>,
    user: Seq<char>,
    ttl: usize,
    now: i64,
) -> Map<Seq<char>, Entry> {
    written(
        otp_stamped(entries, user, ttl, now),
        cache_key(CacheId::OTPAttempts, user),
        json_of_i64(one_more(otp_attempts(entries, user, now))),
        Some(ttl),
        now,
    )
}

/// The entries after the one-time-code throttle of `user` is cleared: time
/// stamp and count are gone.
pub open spec fn otp_cleared(entries: Map<Seq<char>, Entry>, user: Seq<char>) -> Map<
    Seq<char>,
    Entry,
> {
    entries.remove(cache_key(CacheId::OTPThrottle, user)).remove(
        cache_key(CacheId::OTPAttempts, user),
    )
}

/// What the reading of the attempt count means for a new attempt: the
/// count as it is; none where nothing is on record or what is on record is
/// no number; and, where the cache could not be reached, that failure, which
/// is to be returned before anything is written.
pub open spec fn prior_attempts(reading: Result<i64, CacheError>) -> Result<i64, CacheError> {
    match reading {
        Ok(count) => Ok(count),
        Err(CacheError::Unavailable(reason)) => Err(CacheError::Unavailable(reason)),
        Err(_) => Ok(0i64),
    }
}

/// Decides from the reading of the attempt count whether a new attempt can
/// be put on record, and on top of how many.
pub fn attempts_on_record(reading: Result<i64, CacheError>) -> (prior: Result<i64, CacheError>)
    ensures
        prior == prior_attempts(reading),
{
    match reading {
        Ok(count) => Ok(count),
        Err(CacheError::Unavailable(reason)) => Err(CacheError::Unavailable(reason)),
        Err(_) => Ok(0),
    }
}

/// What the store's answer to the read of the attempt count means for a
/// new attempt.
pub open spec fn prior_of(found: Result<Option<String>, CacheError>) -> Result<i64, CacheError> {
    match found {
        Ok(Some(payload)) => match i64_of_json(payload@) {
            Some(count) => Ok(count),
            None => Ok(0i64),
        },
        Ok(None) => Ok(0i64),
        Err(CacheError::Unavailable(reason)) => Err(CacheError::Unavailable(reason)),
        Err(_) => Ok(0i64),
    }
}

/// What recording a one-time-code attempt asks of the store, and what it
/// returns for the answers.
///
/// It reads the count. Where that read fails, the failure is returned and
/// nothing is written. Otherwise it writes the time stamp, and where that
/// write fails, the failure is returned and the count is not written.
/// Otherwise it writes the count, one more than was on record, and returns
/// what was on record, or the failure of that write.
pub open spec fn otp_exchanged(
    before: Seq<Exchange>,
    after: Seq<Exchange>,
    user: Seq<char>,
    ttl: usize,
    now: i64,
    result: Result<i64, CacheError>,
) -> bool {
    let stamp = cache_key(CacheId::OTPThrottle, user);
    let count = cache_key(CacheId::OTPAttempts, user);
    let n = before.len() as int;
    &&& after.len() > n
    &&& after.subrange(0, n) == before
    &&& after[n].request == Request::Read(count, now)
    &&& after[n].reply is Found
    &&& match prior_of(after[n].reply->Found_0) {
        Err(e) => after.len() == n + 1 && result == Err::<i64, CacheError>(e),
        Ok(prior) => {
            &&& after.len() > n + 1
            &&& after[n + 1].request == Request::Write(stamp, json_of_i64(now), Some(ttl), now)
            &&& match after[n + 1].reply {
                Reply::Done(Err(e)) => after.len() == n + 2 && result == Err::<i64, CacheError>(e),
                Reply::Done(Ok(())) => {
                    &&& after.len() == n + 3
                    &&& after[n + 2].request == Request::Write(
                        count,
                        json_of_i64(one_more(prior)),
                        Some(ttl),
                        now,
                    )
                    &&& match after[n + 2].reply {
                        Reply::Done(Ok(())) => result == Ok::<i64, CacheError>(prior),
                        Reply::Done(Err(e)) => result == Err::<i64, CacheError>(e),
                        _ => false,
                    }
                },
                _ => false,
            }
        },
    }
}

/// What clearing the one-time-code throttle asks of the store, and what it
/// returns for the answers: it removes the time stamp, and where that
/// fails, returns the failure and leaves the count. Otherwise it removes
/// the count and returns the store's answer to that.
pub open spec fn otp_clearing(
    before: Seq<Exchange>,
    after: Seq<Exchange>,
    user: Seq<char>,
    done: Result<(), CacheError>,
) -> bool {
    let stamp = cache_key(CacheId::OTPThrottle, user);
    let count = cache_key(CacheId::OTPAttempts, user);
    let n = before.len() as int;
    &&& after.len() > n
    &&& after.subrange(0, n) == before
    &&& after[n].request == Request::Remove(stamp)
    &&& match after[n].reply {
        Reply::Done(Err(e)) => after.len() == n + 1 && done == Err::<(), CacheError>(e),
        Reply::Done(Ok(())) => {
            &&& after.len() == n + 2
            &&& after[n + 1].request == Request::Remove(count)
            &&& after[n + 1].reply == Reply::Done(done)
        },
        _ => false,
    }
}

/// The limiter over a cache.
pub struct Throttle<S> {
    pub store: S,
    pub config: ThrottleConfig,
}

impl<S: CacheStore> Throttle<S> {
    /// What every operation leaves as it was: the store is in order, as
    /// reliable as before, and the configuration is the same.
    pub open spec fn follows(self, before: Self) -> bool {
        &&& self.store.wf()
        &&& self.store.reliable() == before.store.reliable()
        &&& self.config == before.config
    }

    pub fn new(store: S, config: ThrottleConfig) -> (throttle: Throttle<S>)
        ensures
            throttle.store == store,
            throttle.config == config,
    {
        Throttle { store, config }
    }

    /// Caches a serialised session behind its id, for the time-to-live of
    /// sessions.
    pub fn set_session(&mut self, session_id: &str, session: &str, now: i64) -> (done: Result<
        (),
        CacheError,
    >)
        requires
            old(self).store.wf(),
        ensures
            final(self).follows(*old(self)),
            answered(
                old(self).store.exchanges(),
                final(self).store.exchanges(),
                Request::Write(
                    cache_key(CacheId::Session, session_id@),
                    session@,
                    Some(old(self).config.session),
                    now,
                ),
                Reply::Done(done),
            ),
            done matches Err(e) ==> e is Unavailable,
            old(self).store.reliable() ==> done is Ok && final(self).store.entries() == written(
                old(self).store.entries(),
                cache_key(CacheId::Session, session_id@),
                session@,
                Some(old(self).config.session),
                now,
            ),
    {
        Cache::set(
            CacheId::Session,
            session_id,
            session,
            Some(self.config.session),
            &mut self.store,
            now,
        )
    }

    /// Sets a token as a key to the provided value in the cache.
    pub fn set_token(
        &mut self,
        cache_id: CacheId,
        token: &str,
        value: &str,
        ex: Option<usize>,
        now: i64,
    ) -> (done: Result<(), CacheError>)
        requires
            old(self).store.wf(),
        ensures
            final(self).follows(*old(self)),
            answered(
                old(self).store.exchanges(),
                final(self).store.exchanges(),
                Request::Write(cache_key(cache_id, token@), value@, ex, now),
                Reply::Done(done),
            ),
            done matches Err(e) ==> e is Unavailable,
            old(self).store.reliable() ==> done is Ok && final(self).store.entries() == written(
                old(self).store.entries(),
                cache_key(cache_id, token@),
                value@,
                ex,
                now,
            ),
    {
        Cache::set(cache_id, token, value, ex, &mut self.store, now)
    }

    /// Gets the value stored under the token.
    pub fn get_token(&mut self, cache_id: CacheId, token: &str, now: i64) -> (got: Result<
        String,
        CacheError,
    >)
        requires
            old(self).store.wf(),
        ensures
            final(self).follows(*old(self)),
            answered(
                old(self).store.exchanges(),
                final(self).store.exchanges(),
                Request::Read(cache_key(cache_id, token@), now),
                Reply::Found(last_found(final(self).store.exchanges())),
            ),
            got == payload_of(last_found(final(self).store.exchanges())),
            last_found(final(self).store.exchanges()) matches Err(e) ==> e is Unavailable,
            final(self).store.entries() == old(self).store.entries(),
            got matches Err(e) ==> e is Miss || e is Unavailable,
            old(self).store.reliable() ==> read(
                old(self).store.entries(),
                cache_key(cache_id, token@),
                now,
                got,
            ),
    {
        Cache::get(cache_id, token, &mut self.store, now)
    }

    /// Deletes the value stored under the token.
    pub fn delete_token(&mut self, cache_id: CacheId, token: &str) -> (done: Result<
        (),
        CacheError,
    >)
        requires
            old(self).store.wf(),
        ensures
            final(self).follows(*old(self)),
            answered(
                old(self).store.exchanges(),
                final(self).store.exchanges(),
                Request::Remove(cache_key(cache_id, token@)),
                Reply::Done(done),
            ),
            done matches Err(e) ==> e is Unavailable,
            old(self).store.reliable() ==> done is Ok && final(self).store.entries()
                == old(self).store.entries().remove(cache_key(cache_id, token@)),
    {
        Cache::delete(cache_id, token, &mut self.store)
    }

    /// Counts one failed login of the user and returns the count. The first
    /// attempt stores 1 with the time-to-live of login attempts; later ones
    /// add one and leave the deadline as it is.
    pub fn cache_login_attempt(&mut self, user_id: &str, now: i64) -> (count: Result<
        i64,
        CacheError,
    >)
        requires
            old(self).store.wf(),
        ensures
            final(self).follows(*old(self)),
            answered(
                old(self).store.exchanges(),
                final(self).store.exchanges(),
                Request::Count(
                    cache_key(CacheId::LoginAttempts, user_id@),
                    old(self).config.login_attempts,
                    now,
                ),
                Reply::Counted(count),
            ),
            count matches Err(e) ==> e is Unavailable || e is Malformed,
            old(self).store.reliable() ==> bumped(
                old(self).store.entries(),
                final(self).store.entries(),
                cache_key(CacheId::LoginAttempts, user_id@),
                old(self).config.login_attempts,
                now,
                count,
            ),
    {
        let key = Cache::prefix_id(CacheId::LoginAttempts, user_id);
        self.store.increment_or_init(key.as_str(), self.config.login_attempts, now)
    }

    /// The failed logins of the user on record at `now`.
    pub fn login_attempts(&mut self, user_id: &str, now: i64) -> (got: Result<i64, CacheError>)
        requires
            old(self).store.wf(),
        ensures
            final(self).follows(*old(self)),
            answered(
                old(self).store.exchanges(),
                final(self).store.exchanges(),
                Request::Read(cache_key(CacheId::LoginAttempts, user_id@), now),
                Reply::Found(last_found(final(self).store.exchanges())),
            ),
            number_of(last_found(final(self).store.exchanges()), got),
            last_found(final(self).store.exchanges()) matches Err(e) ==> e is Unavailable,
            final(self).store.entries() == old(self).store.entries(),
            old(self).store.reliable() ==> read_i64(
                old(self).store.entries(),
                cache_key(CacheId::LoginAttempts, user_id@),
                now,
                got,
            ),
    {
        Cache::get_i64(CacheId::LoginAttempts, user_id, &mut self.store, now)
    }

    /// Removes the user's login attempts from the cache.
    pub fn delete_login_attempts(&mut self, user_id: &str) -> (done: Result<(), CacheError>)
        requires
            old(self).store.wf(),
        ensures
            final(self).follows(*old(self)),
            answered(
                old(self).store.exchanges(),
                final(self).store.exchanges(),
                Request::Remove(cache_key(CacheId::LoginAttempts, user_id@)),
                Reply::Done(done),
            ),
            done matches Err(e) ==> e is Unavailable,
            old(self).store.reliable() ==> done is Ok && final(self).store.entries()
                == old(self).store.entries().remove(cache_key(CacheId::LoginAttempts, user_id@)),
    {
        Cache::delete(CacheId::LoginAttempts, user_id, &mut self.store)
    }

    /// Reads a number of the one-time-code throttle: the time of the last
    /// attempt under `OTPThrottle`, the count under `OTPAttempts`.
    pub fn get_otp_throttle(&mut self, cache_id: CacheId, user_id: &str, now: i64) -> (got:
        Result<i64, CacheError>)
        requires
            old(self).store.wf(),
        ensures
            final(self).follows(*old(self)),
            answered(
                old(self).store.exchanges(),
                final(self).store.exchanges(),
                Request::Read(cache_key(cache_id, user_id@), now),
                Reply::Found(last_found(final(self).store.exchanges())),
            ),
            number_of(last_found(final(self).store.exchanges()), got),
            last_found(final(self).store.exchanges()) matches Err(e) ==> e is Unavailable,
            final(self).store.entries() == old(self).store.entries(),
            old(self).store.reliable() ==> read_i64(
                old(self).store.entries(),
                cache_key(cache_id, user_id@),
                now,
                got,
            ),
    {
        Cache::get_i64(cache_id, user_id, &mut self.store, now)
    }

    /// Records a one-time-code attempt of the user: the time stamp is set to
    /// `now` and the count grows by one, whatever the attempt's result. A
    /// count that cannot be read as a number starts over. Returns the
    /// attempts on record before this one.
    ///
    /// A cache that cannot be reached is an error, never a fresh start. If
    /// a cache fails between the two writes, the time stamp is on record
    /// and the count is not.
    pub fn cache_otp_throttle(&mut self, user_id: &str, now: i64) -> (before: Result<
        i64,
        CacheError,
    >)
        requires
            old(self).store.wf(),
        ensures
            final(self).follows(*old(self)),
            otp_exchanged(
                old(self).store.exchanges(),
                final(self).store.exchanges(),
                user_id@,
                old(self).config.otp_throttle,
                now,
                before,
            ),
            before matches Err(e) ==> e is Unavailable,
            old(self).store.reliable() ==> before == Ok::<i64, CacheError>(
                otp_attempts(old(self).store.entries(), user_id@, now),
            ),
            old(self).store.reliable() ==> final(self).store.entries() == otp_recorded(
                old(self).store.entries(),
                user_id@,
                old(self).config.otp_throttle,
                now,
            ),
    {
        let ttl = self.config.otp_throttle;
        let ghost record = self.store.exchanges();
        let reading = Cache::get_i64(CacheId::OTPAttempts, user_id, &mut self.store, now);
        let ghost first = self.store.exchanges();
        proof {
            assert(first.subrange(0, record.len() as int) =~= record);
        }
        let attempts = match attempts_on_record(reading) {
            Ok(count) => count,
            Err(e) => {
                return Err(e);
            },
        };
        let stamped = Cache::set_i64(
            CacheId::OTPThrottle,
            user_id,
            now,
            Some(ttl),
            &mut self.store,
            now,
        );
        proof {
            assert(self.store.exchanges().subrange(0, record.len() as int) =~= record);
        }
        match stamped {
            Ok(()) => {},
            Err(e) => {
                return Err(e);
            },
        }
        let next = if attempts < i64::MAX {
            attempts + 1
        } else {
            attempts
        };
        let counted = Cache::set_i64(
            CacheId::OTPAttempts,
            user_id,
            next,
            Some(ttl),
            &mut self.store,
            now,
        );
        proof {
            assert(self.store.exchanges().subrange(0, record.len() as int) =~= record);
        }
        match counted {
            Ok(()) => Ok(attempts),
            Err(e) => Err(e),
        }
    }

    /// Clears the one-time-code throttle of the user: the time stamp, then
    /// the count.
    pub fn delete_otp_throttle(&mut self, user_id: &str) -> (done: Result<(), CacheError>)
        requires
            old(self).store.wf(),
        ensures
            final(self).follows(*old(self)),
            otp_clearing(
                old(self).store.exchanges(),
                final(self).store.exchanges(),
                user_id@,
                done,
            ),
            done matches Err(e) ==> e is Unavailable,
            old(self).store.reliable() ==> done is Ok && final(self).store.entries()
                == otp_cleared(old(self).store.entries(), user_id@),
    {
        let ghost record = self.store.exchanges();
        let stamp = Cache::delete(CacheId::OTPThrottle, user_id, &mut self.store);
        proof {
            assert(self.store.exchanges().subrange(0, record.len() as int) =~= record);
        }
        match stamp {
            Ok(()) => {},
            Err(e) => {
                return Err(e);
            },
        }
        let done = Cache::delete(CacheId::OTPAttempts, user_id, &mut self.store);
        proof {
            assert(self.store.exchanges().subrange(0, record.len() as int) =~= record);
        }
        done
    }

    /// Marks that an e-mail went out to the user at `now`.
    pub fn set_email_throttle(&mut self, user_id: &str, now: i64) -> (done: Result<
        (),
        CacheError,
    >)
        requires
            old(self).store.wf(),
        ensures
            final(self).follows(*old(self)),
            answered(
                old(self).store.exchanges(),
                final(self).store.exchanges(),
                Request::Write(
                    cache_key(CacheId::EmailThrottle, user_id@),
                    json_of_i64(1),
                    Some(old(self).config.email_throttle),
                    now,
                ),
                Reply::Done(done),
            ),
            done matches Err(e) ==> e is Unavailable,
            old(self).store.reliable() ==> done is Ok && final(self).store.entries() == written(
                old(self).store.entries(),
                cache_key(CacheId::EmailThrottle, user_id@),
                json_of_i64(1),
                Some(old(self).config.email_throttle),
                now,
            ),
    {
        Cache::set_i64(
            CacheId::EmailThrottle,
            user_id,
            1,
            Some(self.config.email_throttle),
            &mut self.store,
            now,
        )
    }

    /// Reads the mark that an e-mail went out to the user. A miss says that
    /// none went out within the time-to-live.
    pub fn get_email_throttle(&mut self, user_id: &str, now: i64) -> (got: Result<
        i64,
        CacheError,
    >)
        requires
            old(self).store.wf(),
        ensures
            final(self).follows(*old(self)),
            answered(
                old(self).store.exchanges(),
                final(self).store.exchanges(),
                Request::Read(cache_key(CacheId::EmailThrottle, user_id@), now),
                Reply::Found(last_found(final(self).store.exchanges())),
            ),
            number_of(last_found(final(self).store.exchanges()), got),
            last_found(final(self).store.exchanges()) matches Err(e) ==> e is Unavailable,
            final(self).store.entries() == old(self).store.entries(),
            old(self).store.reliable() ==> read_i64(
                old(self).store.entries(),
                cache_key(CacheId::EmailThrottle, user_id@),
                now,
                got,
            ),
    {
        Cache::get_i64(CacheId::EmailThrottle, user_id, &mut self.store, now)
    }

}

/// The two records of the one-time-code throttle never share a key, whoever
/// the users are, so neither write can touch the other record.
pub proof fn law_otp_records_have_keys_of_their_own(user: Seq<char>, other: Seq<char>)
    ensures
        cache_key(CacheId::OTPThrottle, user) != cache_key(CacheId::OTPAttempts, other),
{
    if cache_key(CacheId::OTPThrottle, user) == cache_key(CacheId::OTPAttempts, other) {
        law_cache_key_injective(CacheId::OTPThrottle, user, CacheId::OTPAttempts, other);
    }
}

/// After a one-time-code attempt at `now`, both records are read back
/// until `ttl` seconds have passed: the time stamp is `now`, and the count
/// is one more than the attempts that were on record.
pub proof fn law_otp_attempt_is_on_record(
    entries: Map<Seq<char>, Entry>,
    user: Seq<char>,
    ttl: usize,
    now: i64,
    later: i64,
)
    requires
        later - now < ttl,
    ensures
        lookup(
            otp_recorded(entries, user, ttl, now),
            cache_key(CacheId::OTPThrottle, user),
            later,
        ) == Some(json_of_i64(now)),
        lookup(
            otp_recorded(entries, user, ttl, now),
            cache_key(CacheId::OTPAttempts, user),
            later,
        ) == Some(json_of_i64(one_more(otp_attempts(entries, user, now)))),
{
    law_otp_records_have_keys_of_their_own(user, user);
}

/// What is kept for one user is not touched by what is written for another
/// user, or for the same user in another category.
pub proof fn law_records_do_not_interfere(
    entries: Map<Seq<char>, Entry>,
    cache_id: CacheId,
    user: Seq<char>,
    payload: Seq<char>,
    ttl: Option<usize>,
    now: i64,
    other_id: CacheId,
    other: Seq<char>,
    later: i64,
)
    requires
        cache_id != other_id || user != other,
    ensures
        lookup(
            written(entries, cache_key(cache_id, user), payload, ttl, now),
            cache_key(other_id, other),
            later,
        ) == lookup(entries, cache_key(other_id, other), later),
        lookup(entries.remove(cache_key(cache_id, user)), cache_key(other_id, other), later)
            == lookup(entries, cache_key(other_id, other), later),
{
    if cache_key(cache_id, user) == cache_key(other_id, other) {
        law_cache_key_injective(cache_id, user, other_id, other);
    }
}

} // verus!
