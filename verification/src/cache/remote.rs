//! A cache that lives elsewhere, reached through a client.

use crate::cache::store::{CacheStore, Entry, Exchange, Reply, Request};
use crate::error::CacheError;
use vstd::prelude::*;

verus! {

/// What a client of a cache server offers. The server keeps the time.
///
/// `get` returns `Ok(None)` on a miss. `increment_or_init` adds one to the
/// number under the key, or stores 1 with the time-to-live where the key is
/// absent, as one step on the server.
pub trait CacheClient {
    fn get(&mut self, key: &str) -> Result<Option<String>, CacheError>;

    fn set(&mut self, key: &str, payload: &str, ttl: Option<usize>) -> Result<(), CacheError>;

    fn increment_or_init(&mut self, key: &str, ttl: usize) -> Result<i64, CacheError>;

    fn delete(&mut self, key: &str) -> Result<(), CacheError>;
}

/// A store behind a client. It is not reliable: other clients write to it
/// and the network may fail, so nothing is claimed of what it holds. Each
/// operation hands key, payload and time-to-live to the client as they are;
/// the time is the server's. What the client replies is passed on as
/// [`read_reply`], [`write_reply`], [`count_reply`] and [`delete_reply`]
/// say, which bring its failures to the kinds that a store may report, and
/// is what the store's record shows as its answer.
pub struct Remote<C> {
    pub client: C,
    record: Ghost<Seq<Exchange>>,
}

/// The text that a failure carries. A miss carries none of its own.
pub open spec fn reason_of(e: CacheError) -> Seq<char> {
    match e {
        CacheError::Unavailable(reason) => reason@,
        CacheError::Malformed(reason) => reason@,
        CacheError::Miss => "unexpected miss"@,
    }
}

/// Whether `out` is the failure `e` as a store reports it where only
/// `Unavailable` is expected: the kind is `Unavailable`, the text is kept.
pub open spec fn made_unavailable(e: CacheError, out: CacheError) -> bool {
    out matches CacheError::Unavailable(reason) && reason@ == reason_of(e)
}

/// The failure as a store may report it where only `Unavailable` is
/// expected: the text is kept, the kind is `Unavailable`.
pub fn unavailable(e: CacheError) -> (out: CacheError)
    ensures
        made_unavailable(e, out),
{
    match e {
        CacheError::Unavailable(reason) => CacheError::Unavailable(reason),
        CacheError::Malformed(reason) => CacheError::Unavailable(reason),
        CacheError::Miss => CacheError::Unavailable(String::from_str("unexpected miss")),
    }
}

/// What a store reports for the client's reply to a `get`: what was found
/// as it is, a miss reported as a failure as nothing found, and any other
/// failure as `Unavailable`.
pub fn read_reply(reply: Result<Option<String>, CacheError>) -> (found: Result<
    Option<String>,
    CacheError,
>)
    ensures
        match reply {
            Ok(payload) => found == Ok::<Option<String>, CacheError>(payload),
            Err(CacheError::Miss) => found == Ok::<Option<String>, CacheError>(None),
            Err(e) => found is Err && made_unavailable(e, found->Err_0),
        },
{
    match reply {
        Ok(payload) => Ok(payload),
        Err(CacheError::Miss) => Ok(None),
        Err(e) => Err(unavailable(e)),
    }
}

/// What a store reports for the client's reply to a `set`: success as it
/// is, and any failure as `Unavailable`.
pub fn write_reply(reply: Result<(), CacheError>) -> (done: Result<(), CacheError>)
    ensures
        match reply {
            Ok(()) => done is Ok,
            Err(e) => done is Err && made_unavailable(e, done->Err_0),
        },
{
    match reply {
        Ok(()) => Ok(()),
        Err(e) => Err(unavailable(e)),
    }
}

/// What a store reports for the client's reply to an increment: the count
/// as it is, `Malformed` as it is, and any other failure as `Unavailable`.
pub fn count_reply(reply: Result<i64, CacheError>) -> (count: Result<i64, CacheError>)
    ensures
        match reply {
            Ok(n) => count == Ok::<i64, CacheError>(n),
            Err(CacheError::Malformed(reason)) => count == Err::<i64, CacheError>(
                CacheError::Malformed(reason),
            ),
            Err(e) => count is Err && made_unavailable(e, count->Err_0),
        },
{
    match reply {
        Ok(n) => Ok(n),
        Err(CacheError::Malformed(reason)) => Err(CacheError::Malformed(reason)),
        Err(e) => Err(unavailable(e)),
    }
}

/// What a store reports for the client's reply to a `delete`: success as it
/// is, a miss as success, since removing what is not there succeeds, and any
/// other failure as `Unavailable`.
pub fn delete_reply(reply: Result<(), CacheError>) -> (done: Result<(), CacheError>)
    ensures
        match reply {
            Ok(()) => done is Ok,
            Err(CacheError::Miss) => done is Ok,
            Err(e) => done is Err && made_unavailable(e, done->Err_0),
        },
{
    match reply {
        Ok(()) => Ok(()),
        Err(CacheError::Miss) => Ok(()),
        Err(e) => Err(unavailable(e)),
    }
}

impl<C: CacheClient> Remote<C> {
    /// The client behind the store.
    pub closed spec fn client(&self) -> C {
        self.client
    }

    /// A store behind `client`, with nothing on record.
    pub fn new(client: C) -> (remote: Remote<C>)
        ensures
            remote.client() == client,
            remote.wf(),
            !remote.reliable(),
            remote.exchanges() == Seq::<Exchange>::empty(),
    {
        Remote { client, record: Ghost(Seq::empty()) }
    }
}

impl<C: CacheClient> CacheStore for Remote<C> {
    open spec fn entries(&self) -> Map<Seq<char>, Entry> {
        Map::empty()
    }

    open spec fn wf(&self) -> bool {
        true
    }

    open spec fn reliable(&self) -> bool {
        false
    }

    closed spec fn exchanges(&self) -> Seq<Exchange> {
        self.record@
    }

    fn get(&mut self, key: &str, now: i64) -> (found: Result<Option<String>, CacheError>) {
        let found = read_reply(self.client.get(key));
        self.record = Ghost(
            self.record@.push(
                Exchange { request: Request::Read(key@, now), reply: Reply::Found(found) },
            ),
        );
        found
    }

    fn set(&mut self, key: &str, payload: &str, ttl: Option<usize>, now: i64) -> (done: Result<
        (),
        CacheError,
    >) {
        let done = write_reply(self.client.set(key, payload, ttl));
        self.record = Ghost(
            self.record@.push(
                Exchange {
                    request: Request::Write(key@, payload@, ttl, now),
                    reply: Reply::Done(done),
                },
            ),
        );
        done
    }

    fn increment_or_init(&mut self, key: &str, ttl: usize, now: i64) -> (count: Result<
        i64,
        CacheError,
    >) {
        let count = count_reply(self.client.increment_or_init(key, ttl));
        self.record = Ghost(
            self.record@.push(
                Exchange { request: Request::Count(key@, ttl, now), reply: Reply::Counted(count) },
            ),
        );
        count
    }

    fn delete(&mut self, key: &str) -> (done: Result<(), CacheError>) {
        let done = delete_reply(self.client.delete(key));
        self.record = Ghost(
            self.record@.push(
                Exchange { request: Request::Remove(key@), reply: Reply::Done(done) },
            ),
        );
        done
    }
}

} // verus!
