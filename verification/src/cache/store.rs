//! The cache primitive: what a cache technology has to offer, and what each
//! operation does to the stored entries.
//!
//! Time is a parameter. Every operation that depends on expiry takes the
//! current time in seconds, so a cache behaves the same under a real clock
//! and under one that a test moves by hand.

use crate::cache::codec::{i64_of_json, json_of_i64};
use crate::error::CacheError;
use vstd::prelude::*;

verus! {

/// What is stored under one key.
pub struct Entry {
    /// The payload, an opaque text.
    pub payload: Seq<char>,
    /// The second from which on the entry counts as gone. `None`: it stays.
    pub deadline: Option<i64>,
}

/// The deadline of an entry written at `now` with time-to-live `ttl`. One
/// that no clock can reach is no deadline.
pub open spec fn deadline_of(now: i64, ttl: Option<usize>) -> Option<i64> {
    match ttl {
        Some(seconds) if now + seconds <= i64::MAX => Some((now + seconds) as i64),
        _ => None,
    }
}

impl Entry {
    /// Whether the entry is still there at `now`.
    pub open spec fn live(self, now: i64) -> bool {
        match self.deadline {
            Some(deadline) => now < deadline,
            None => true,
        }
    }
}

/// The payload under `key` at `now`: that of a live entry, or a miss.
pub open spec fn lookup(entries: Map<Seq<char>, Entry>, key: Seq<char>, now: i64) -> Option<
    Seq<char>,
> {
    if entries.contains_key(key) && entries[key].live(now) {
        Some(entries[key].payload)
    } else {
        None
    }
}

/// The entries that are still there at `now`.
pub open spec fn unexpired(entries: Map<Seq<char>, Entry>, now: i64) -> Map<Seq<char>, Entry> {
    Map::new(
        |key: Seq<char>| entries.contains_key(key) && entries[key].live(now),
        |key: Seq<char>| entries[key],
    )
}

/// The entries after `payload` is written under `key` at `now`. The write
/// replaces the value and resets the deadline.
pub open spec fn written(
    entries: Map<Seq<char>, Entry>,
    key: Seq<char>,
    payload: Seq<char>,
    ttl: Option<usize>,
    now: i64,
) -> Map<Seq<char>, Entry> {
    entries.insert(key, Entry { payload, deadline: deadline_of(now, ttl) })
}

/// The count that increment-or-initialise returns for `key` at `now`: 1 on
/// a miss, one more than the stored number otherwise. `None` where the
/// payload is not a number or the number cannot grow.
pub open spec fn next_count(entries: Map<Seq<char>, Entry>, key: Seq<char>, now: i64) -> Option<
    i64,
> {
    match lookup(entries, key, now) {
        None => Some(1i64),
        Some(payload) => match i64_of_json(payload) {
            Some(count) if count < i64::MAX => Some((count + 1) as i64),
            _ => None,
        },
    }
}

/// The entries after increment-or-initialise on `key` at `now`. A miss
/// stores 1 with a fresh deadline. A hit stores the next count and keeps the
/// deadline that the entry has. Where there is no next count, nothing
/// changes.
pub open spec fn counted(
    entries: Map<Seq<char>, Entry>,
    key: Seq<char>,
    ttl: usize,
    now: i64,
) -> Map<Seq<char>, Entry> {
    match next_count(entries, key, now) {
        None => entries,
        Some(count) => entries.insert(
            key,
            Entry {
                payload: json_of_i64(count),
                deadline: if lookup(entries, key, now) is None {
                    deadline_of(now, Some(ttl))
                } else {
                    entries[key].deadline
                },
            },
        ),
    }
}

/// What a read of `key` at `now` finds: the payload of the live entry, or
/// nothing.
pub open spec fn fetched(
    entries: Map<Seq<char>, Entry>,
    key: Seq<char>,
    now: i64,
    found: Result<Option<String>, CacheError>,
) -> bool {
    match found {
        Ok(Some(payload)) => lookup(entries, key, now) == Some(payload@),
        Ok(None) => lookup(entries, key, now) is None,
        Err(_) => false,
    }
}

/// What increment-or-initialise on `key` at `now` does: it returns the next
/// count and stores it as a payload that reads back as that count; where
/// there is no next count it fails with `Malformed` and changes nothing.
pub open spec fn bumped(
    before: Map<Seq<char>, Entry>,
    after: Map<Seq<char>, Entry>,
    key: Seq<char>,
    ttl: usize,
    now: i64,
    count: Result<i64, CacheError>,
) -> bool {
    match count {
        Ok(n) => {
            &&& next_count(before, key, now) == Some(n)
            &&& after == counted(before, key, ttl, now)
            &&& i64_of_json(json_of_i64(n)) == Some(n)
        },
        Err(CacheError::Malformed(_)) => next_count(before, key, now) is None && after == before,
        Err(_) => false,
    }
}

/// What a store is asked for.
pub enum Request {
    /// The payload under the key, at the time.
    Read(Seq<char>, i64),
    /// To store the payload under the key with the time-to-live, at the
    /// time.
    Write(Seq<char>, Seq<char>, Option<usize>, i64),
    /// To count one up under the key, or to start at 1 with the
    /// time-to-live, at the time.
    Count(Seq<char>, usize, i64),
    /// To remove what is under the key.
    Remove(Seq<char>),
}

/// What a store answers.
pub enum Reply {
    Found(Result<Option<String>, CacheError>),
    Done(Result<(), CacheError>),
    Counted(Result<i64, CacheError>),
}

/// One call to a store, with its answer.
pub struct Exchange {
    pub request: Request,
    pub reply: Reply,
}

/// Whether the store's record grew by exactly one call: `request`,
/// answered with `reply`.
pub open spec fn answered(
    before: Seq<Exchange>,
    after: Seq<Exchange>,
    request: Request,
    reply: Reply,
) -> bool {
    after == before.push(Exchange { request, reply })
}

/// A keyed store of text payloads with expiry.
///
/// Every store keeps a record of the calls it has answered, so whoever
/// works on a store can say what it asked and what it made of the answer.
///
/// A store is [`CacheStore::reliable`] when it is the only writer of what
/// it holds and can always be reached, as a store in the same process is.
/// Of such a store the contracts say exactly what each operation returns
/// and changes. Of any other store they say only which failures to expect:
/// what it returns depends on its other clients and on the network.
pub trait CacheStore {
    /// Everything stored, entries past their deadline included.
    spec fn entries(&self) -> Map<Seq<char>, Entry>;

    /// Whether the store is in order. Every store starts so, and every
    /// operation keeps it so.
    spec fn wf(&self) -> bool;

    /// Whether the store answers every call, and nothing else writes to it.
    spec fn reliable(&self) -> bool;

    /// Every call that the store has answered, oldest first, each with its
    /// answer.
    spec fn exchanges(&self) -> Seq<Exchange>;

    /// The payload under `key`, or `None` on a miss.
    fn get(&mut self, key: &str, now: i64) -> (found: Result<Option<String>, CacheError>)
        requires
            old(self).wf(),
        ensures
            final(self).wf(),
            final(self).reliable() == old(self).reliable(),
            final(self).entries() == old(self).entries(),
            answered(
                old(self).exchanges(),
                final(self).exchanges(),
                Request::Read(key@, now),
                Reply::Found(found),
            ),
            found matches Err(e) ==> e is Unavailable,
            old(self).reliable() ==> fetched(old(self).entries(), key@, now, found),
    ;

    /// Stores `payload` under `key`, to expire `ttl` seconds from `now`.
    fn set(&mut self, key: &str, payload: &str, ttl: Option<usize>, now: i64) -> (done: Result<
        (),
        CacheError,
    >)
        requires
            old(self).wf(),
        ensures
            final(self).wf(),
            final(self).reliable() == old(self).reliable(),
            answered(
                old(self).exchanges(),
                final(self).exchanges(),
                Request::Write(key@, payload@, ttl, now),
                Reply::Done(done),
            ),
            done matches Err(e) ==> e is Unavailable,
            old(self).reliable() ==> done is Ok && final(self).entries() == written(
                old(self).entries(),
                key@,
                payload@,
                ttl,
                now,
            ),
    ;

    /// Adds one to the number under `key`, or stores 1 with the
    /// time-to-live where there is none, in one step. Returns the new
    /// count. A payload that is no number, or one that cannot grow, is
    /// `Malformed`.
    fn increment_or_init(&mut self, key: &str, ttl: usize, now: i64) -> (count: Result<
        i64,
        CacheError,
    >)
        requires
            old(self).wf(),
        ensures
            final(self).wf(),
            final(self).reliable() == old(self).reliable(),
            answered(
                old(self).exchanges(),
                final(self).exchanges(),
                Request::Count(key@, ttl, now),
                Reply::Counted(count),
            ),
            count matches Err(e) ==> e is Unavailable || e is Malformed,
            old(self).reliable() ==> bumped(
                old(self).entries(),
                final(self).entries(),
                key@,
                ttl,
                now,
                count,
            ),
    ;

    /// Removes the entry under `key`. Removing what is not there succeeds.
    fn delete(&mut self, key: &str) -> (done: Result<(), CacheError>)
        requires
            old(self).wf(),
        ensures
            final(self).wf(),
            final(self).reliable() == old(self).reliable(),
            answered(
                old(self).exchanges(),
                final(self).exchanges(),
                Request::Remove(key@),
                Reply::Done(done),
            ),
            done matches Err(e) ==> e is Unavailable,
            old(self).reliable() ==> done is Ok && final(self).entries()
                == old(self).entries().remove(key@),
    ;
}

} // verus!
