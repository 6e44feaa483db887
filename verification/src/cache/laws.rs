//! What holds of every cache store that meets its contract.

use crate::cache::codec::json_of_i64;
use crate::cache::store::{bumped, deadline_of, lookup, unexpired, written, Entry};
use crate::error::CacheError;
use vstd::prelude::*;

verus! {

/// A value written with a time-to-live is read back until its deadline, and
/// is a miss from the deadline on. Without a deadline it is always read
/// back.
pub proof fn law_written_value_is_read_until_it_expires(
    entries: Map<Seq<char>, Entry>,
    key: Seq<char>,
    payload: Seq<char>,
    ttl: Option<usize>,
    now: i64,
    later: i64,
)
    ensures
        deadline_of(now, ttl) is None ==> lookup(
            written(entries, key, payload, ttl, now),
            key,
            later,
        ) == Some(payload),
        deadline_of(now, ttl) is Some && later < deadline_of(now, ttl)->0 ==> lookup(
            written(entries, key, payload, ttl, now),
            key,
            later,
        ) == Some(payload),
        deadline_of(now, ttl) is Some && later >= deadline_of(now, ttl)->0 ==> lookup(
            written(entries, key, payload, ttl, now),
            key,
            later,
        ) is None,
        ttl is Some && now + ttl->0 <= i64::MAX ==> deadline_of(now, ttl) == Some(
            (now + ttl->0) as i64,
        ),
{
}

/// A write under one key leaves what is read under any other key as it is.
pub proof fn law_write_touches_one_key(
    entries: Map<Seq<char>, Entry>,
    key: Seq<char>,
    payload: Seq<char>,
    ttl: Option<usize>,
    now: i64,
    other: Seq<char>,
    later: i64,
)
    requires
        other != key,
    ensures
        lookup(written(entries, key, payload, ttl, now), other, later) == lookup(
            entries,
            other,
            later,
        ),
{
}

/// Dropping what has expired changes nothing that is read from then on.
pub proof fn law_purge_keeps_what_is_read(
    entries: Map<Seq<char>, Entry>,
    now: i64,
    key: Seq<char>,
    later: i64,
)
    requires
        now <= later,
    ensures
        lookup(unexpired(entries, now), key, later) == lookup(entries, key, later),
{
}

/// Deleting is idempotent: a second delete changes nothing, a delete of a
/// key that is not there changes nothing, and after a delete the key is a
/// miss at any time.
pub proof fn law_delete_is_idempotent(entries: Map<Seq<char>, Entry>, key: Seq<char>, now: i64)
    ensures
        entries.remove(key).remove(key) == entries.remove(key),
        !entries.contains_key(key) ==> entries.remove(key) == entries,
        lookup(entries.remove(key), key, now) is None,
{
    assert(entries.remove(key).remove(key) =~= entries.remove(key));
    if !entries.contains_key(key) {
        assert(entries.remove(key) =~= entries);
    }
}

/// No increment is lost, and the deadline is set once.
///
/// Take any number of increment-or-initialise calls on one key, in any
/// order in which the store serves them: `states[i]` is what the store
/// holds before call `i`, served at `times[i]` with result `counts[i]`.
/// If the key is fresh at the first call and every call is served before
/// the deadline that the first one sets, then call `i` returns `i + 1`, the
/// last count is on record, and the deadline is still the one of the first
/// call.
pub proof fn law_increments_are_not_lost(
    states: Seq<Map<Seq<char>, Entry>>,
    counts: Seq<Result<i64, CacheError>>,
    times: Seq<i64>,
    key: Seq<char>,
    ttl: usize,
)
    requires
        1 <= counts.len() <= i64::MAX,
        times.len() == counts.len(),
        states.len() == counts.len() + 1,
        lookup(states[0], key, times[0]) is None,
        forall|i: int|
            0 <= i < counts.len() ==> #[trigger] bumped(
                states[i],
                states[i + 1],
                key,
                ttl,
                times[i],
                counts[i],
            ),
        forall|i: int|
            0 <= i < times.len() ==> (deadline_of(times[0], Some(ttl)) matches Some(deadline)
                ==> #[trigger] times[i] < deadline),
    ensures
        forall|i: int| 0 <= i < counts.len() ==> #[trigger] counts[i] == Ok::<i64, CacheError>(
            (i + 1) as i64,
        ),
        states.last().contains_key(key),
        states.last()[key].payload == json_of_i64(counts.len() as i64),
        states.last()[key].deadline == deadline_of(times[0], Some(ttl)),
{
    lemma_increments(states, counts, times, key, ttl, counts.len() as int);
    assert forall|i: int| 0 <= i < counts.len() implies #[trigger] counts[i] == Ok::<
        i64,
        CacheError,
    >((i + 1) as i64) by {
        lemma_increments(states, counts, times, key, ttl, i + 1);
    }
}

/// The state after the first `n` of the calls.
proof fn lemma_increments(
    states: Seq<Map<Seq<char>, Entry>>,
    counts: Seq<Result<i64, CacheError>>,
    times: Seq<i64>,
    key: Seq<char>,
    ttl: usize,
    n: int,
)
    requires
        1 <= n <= counts.len() <= i64::MAX,
        times.len() == counts.len(),
        states.len() == counts.len() + 1,
        lookup(states[0], key, times[0]) is None,
        forall|i: int|
            0 <= i < counts.len() ==> #[trigger] bumped(
                states[i],
                states[i + 1],
                key,
                ttl,
                times[i],
                counts[i],
            ),
        forall|i: int|
            0 <= i < times.len() ==> (deadline_of(times[0], Some(ttl)) matches Some(deadline)
                ==> #[trigger] times[i] < deadline),
    ensures
        counts[n - 1] == Ok::<i64, CacheError>(n as i64),
        states[n].contains_key(key),
        states[n][key].payload == json_of_i64(n as i64),
        states[n][key].deadline == deadline_of(times[0], Some(ttl)),
        crate::cache::codec::i64_of_json(json_of_i64(n as i64)) == Some(n as i64),
    decreases n,
{
    let i = n - 1;
    assert(bumped(states[i], states[i + 1], key, ttl, times[i], counts[i]));
    if n > 1 {
        lemma_increments(states, counts, times, key, ttl, n - 1);
        assert(deadline_of(times[0], Some(ttl)) matches Some(deadline) ==> times[i] < deadline);
        assert(states[i][key].live(times[i]));
    }
}

} // verus!
