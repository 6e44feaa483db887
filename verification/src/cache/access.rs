//! Payloads filed under a category and an identity.

use crate::cache::codec::{decode_i64, encode_i64, i64_of_json, json_of_i64};
use crate::cache::key::{cache_key, CacheId};
use crate::cache::store::{
    answered, lookup, written, CacheStore, Entry, Exchange, Reply, Request,
};
use crate::error::CacheError;
use vstd::prelude::*;

verus! {

/// What reading `key` at `now` returns: the payload of a live entry, or
/// `Miss` where there is none.
pub open spec fn read(
    entries: Map<Seq<char>, Entry>,
    key: Seq<char>,
    now: i64,
    got: Result<String, CacheError>,
) -> bool {
    match got {
        Ok(payload) => lookup(entries, key, now) == Some(payload@),
        Err(CacheError::Miss) => lookup(entries, key, now) is None,
        Err(_) => false,
    }
}

/// What reading a number under `key` at `now` returns: the number that the
/// live payload stands for, `Malformed` where it stands for none, or `Miss`
/// where there is no live entry.
pub open spec fn read_i64(
    entries: Map<Seq<char>, Entry>,
    key: Seq<char>,
    now: i64,
    got: Result<i64, CacheError>,
) -> bool {
    match got {
        Ok(value) => lookup(entries, key, now) matches Some(payload) && i64_of_json(payload)
            == Some(value),
        Err(CacheError::Miss) => lookup(entries, key, now) is None,
        Err(CacheError::Malformed(_)) => lookup(entries, key, now) matches Some(payload)
            && i64_of_json(payload) is None,
        Err(CacheError::Unavailable(_)) => false,
    }
}

/// The store's answer to the read that is last on its record.
pub open spec fn last_found(record: Seq<Exchange>) -> Result<Option<String>, CacheError> {
    match record.last().reply {
        Reply::Found(found) => found,
        _ => Err(CacheError::Miss),
    }
}

/// What a read returns for the store's answer: the payload that was found,
/// `Miss` where nothing was found, and the store's failure as it is.
pub open spec fn payload_of(found: Result<Option<String>, CacheError>) -> Result<
    String,
    CacheError,
> {
    match found {
        Ok(Some(payload)) => Ok(payload),
        Ok(None) => Err(CacheError::Miss),
        Err(e) => Err(e),
    }
}

/// What a read of a number returns for the store's answer: the number that
/// the payload stands for, `Malformed` where it stands for none, `Miss`
/// where nothing was found, and the store's failure as it is.
pub open spec fn number_of(
    found: Result<Option<String>, CacheError>,
    got: Result<i64, CacheError>,
) -> bool {
    match found {
        Ok(Some(payload)) => match i64_of_json(payload@) {
            Some(value) => got == Ok::<i64, CacheError>(value),
            None => got matches Err(CacheError::Malformed(_)),
        },
        Ok(None) => got == Err::<i64, CacheError>(CacheError::Miss),
        Err(e) => got == Err::<i64, CacheError>(e),
    }
}

/// Access to a cache by category and identity.
pub struct Cache;

impl Cache {
    /// The key of `key` in the category: the category's tag, a colon, `key`.
    pub fn prefix_id(cache_id: CacheId, key: &str) -> (full: String)
        ensures
            full@ == cache_key(cache_id, key@),
    {
        proof {
            reveal_strlit(":");
            assert(":"@ =~= seq![':']);
        }
        let mut full = String::from_str(cache_id.as_str());
        full.append(":");
        full.append(key);
        full
    }

    /// Makes the result of a read from the store's answer. A failure of
    /// the store is never turned into a miss.
    pub fn payload(found: Result<Option<String>, CacheError>) -> (got: Result<String, CacheError>)
        ensures
            got == payload_of(found),
    {
        match found {
            Ok(Some(payload)) => Ok(payload),
            Ok(None) => Err(CacheError::Miss),
            Err(e) => Err(e),
        }
    }

    /// Makes the result of a read of a number from the store's answer.
    pub fn number(found: Result<Option<String>, CacheError>) -> (got: Result<i64, CacheError>)
        ensures
            number_of(found, got),
    {
        match found {
            Ok(Some(payload)) => decode_i64(payload.as_str()),
            Ok(None) => Err(CacheError::Miss),
            Err(e) => Err(e),
        }
    }

    /// The payload stored for `key` in the category, read at `now`.
    pub fn get<S: CacheStore>(cache_id: CacheId, key: &str, conn: &mut S, now: i64) -> (got:
        Result<String, CacheError>)
        requires
            old(conn).wf(),
        ensures
            final(conn).wf(),
            final(conn).reliable() == old(conn).reliable(),
            answered(
                old(conn).exchanges(),
                final(conn).exchanges(),
                Request::Read(cache_key(cache_id, key@), now),
                Reply::Found(last_found(final(conn).exchanges())),
            ),
            got == payload_of(last_found(final(conn).exchanges())),
            last_found(final(conn).exchanges()) matches Err(e) ==> e is Unavailable,
            final(conn).entries() == old(conn).entries(),
            got matches Err(e) ==> e is Miss || e is Unavailable,
            old(conn).reliable() ==> read(old(conn).entries(), cache_key(cache_id, key@), now, got),
    {
        let full = Cache::prefix_id(cache_id, key);
        Cache::payload(conn.get(full.as_str(), now))
    }

    /// Stores `val` for `key` in the category at `now`, to expire after
    /// `ex` seconds, or never where `ex` is `None`.
    pub fn set<S: CacheStore>(
        cache_id: CacheId,
        key: &str,
        val: &str,
        ex: Option<usize>,
        conn: &mut S,
        now: i64,
    ) -> (done: Result<(), CacheError>)
        requires
            old(conn).wf(),
        ensures
            final(conn).wf(),
            final(conn).reliable() == old(conn).reliable(),
            answered(
                old(conn).exchanges(),
                final(conn).exchanges(),
                Request::Write(cache_key(cache_id, key@), val@, ex, now),
                Reply::Done(done),
            ),
            done matches Err(e) ==> e is Unavailable,
            old(conn).reliable() ==> done is Ok && final(conn).entries() == written(
                old(conn).entries(),
                cache_key(cache_id, key@),
                val@,
                ex,
                now,
            ),
    {
        let full = Cache::prefix_id(cache_id, key);
        conn.set(full.as_str(), val, ex, now)
    }

    /// Removes what is stored for `key` in the category. Removing what is
    /// not there succeeds and changes nothing.
    pub fn delete<S: CacheStore>(cache_id: CacheId, key: &str, conn: &mut S) -> (done: Result<
        (),
        CacheError,
    >)
        requires
            old(conn).wf(),
        ensures
            final(conn).wf(),
            final(conn).reliable() == old(conn).reliable(),
            answered(
                old(conn).exchanges(),
                final(conn).exchanges(),
                Request::Remove(cache_key(cache_id, key@)),
                Reply::Done(done),
            ),
            done matches Err(e) ==> e is Unavailable,
            old(conn).reliable() ==> done is Ok && final(conn).entries()
                == old(conn).entries().remove(cache_key(cache_id, key@)),
    {
        let full = Cache::prefix_id(cache_id, key);
        conn.delete(full.as_str())
    }

    /// The number stored for `key` in the category, read at `now`.
    pub fn get_i64<S: CacheStore>(cache_id: CacheId, key: &str, conn: &mut S, now: i64) -> (got:
        Result<i64, CacheError>)
        requires
            old(conn).wf(),
        ensures
            final(conn).wf(),
            final(conn).reliable() == old(conn).reliable(),
            answered(
                old(conn).exchanges(),
                final(conn).exchanges(),
                Request::Read(cache_key(cache_id, key@), now),
                Reply::Found(last_found(final(conn).exchanges())),
            ),
            number_of(last_found(final(conn).exchanges()), got),
            last_found(final(conn).exchanges()) matches Err(e) ==> e is Unavailable,
            final(conn).entries() == old(conn).entries(),
            old(conn).reliable() ==> read_i64(
                old(conn).entries(),
                cache_key(cache_id, key@),
                now,
                got,
            ),
    {
        let full = Cache::prefix_id(cache_id, key);
        Cache::number(conn.get(full.as_str(), now))
    }

    /// Stores the number `val` for `key` in the category at `now`.
    pub fn set_i64<S: CacheStore>(
        cache_id: CacheId,
        key: &str,
        val: i64,
        ex: Option<usize>,
        conn: &mut S,
        now: i64,
    ) -> (done: Result<(), CacheError>)
        requires
            old(conn).wf(),
        ensures
            final(conn).wf(),
            final(conn).reliable() == old(conn).reliable(),
            answered(
                old(conn).exchanges(),
                final(conn).exchanges(),
                Request::Write(cache_key(cache_id, key@), json_of_i64(val), ex, now),
                Reply::Done(done),
            ),
            done matches Err(e) ==> e is Unavailable,
            old(conn).reliable() ==> done is Ok && final(conn).entries() == written(
                old(conn).entries(),
                cache_key(cache_id, key@),
                json_of_i64(val),
                ex,
                now,
            ),
    {
        let payload = encode_i64(val);
        Cache::set(cache_id, key, payload.as_str(), ex, conn, now)
    }
}

} // verus!
