//! A cache held in memory.

use crate::cache::codec::{decode_i64, encode_i64};
use crate::cache::store::{
    bumped, deadline_of, fetched, unexpired, written, CacheStore, Entry, Exchange, Reply, Request,
};
use crate::error::CacheError;
use vstd::prelude::*;

verus! {

struct CacheSlot {
    key: String,
    payload: String,
    deadline: Option<i64>,
}

impl CacheSlot {
    spec fn entry(self) -> Entry {
        Entry { payload: self.payload@, deadline: self.deadline }
    }
}

/// Whether some slot holds `key`.
spec fn holds(slots: Seq<CacheSlot>, key: Seq<char>) -> bool {
    exists|i: int| 0 <= i < slots.len() && (#[trigger] slots[i]).key@ == key
}

/// The place of the slot that holds `key`.
spec fn place(slots: Seq<CacheSlot>, key: Seq<char>) -> int {
    choose|i: int| 0 <= i < slots.len() && (#[trigger] slots[i]).key@ == key
}

/// No two slots hold the same key.
spec fn distinct(slots: Seq<CacheSlot>) -> bool {
    forall|i: int, j: int|
        0 <= i < j < slots.len() ==> (#[trigger] slots[i]).key@ != (#[trigger] slots[j]).key@
}

/// The entries that the slots stand for.
spec fn table(slots: Seq<CacheSlot>) -> Map<Seq<char>, Entry> {
    Map::new(|key: Seq<char>| holds(slots, key), |key: Seq<char>| slots[place(slots, key)].entry())
}

/// Where keys are distinct, the slot at `i` is the one found for its key.
proof fn lemma_place(slots: Seq<CacheSlot>, i: int)
    requires
        distinct(slots),
        0 <= i < slots.len(),
    ensures
        holds(slots, slots[i].key@),
        place(slots, slots[i].key@) == i,
        table(slots).contains_key(slots[i].key@),
        table(slots)[slots[i].key@] == slots[i].entry(),
{
    let key = slots[i].key@;
    assert(holds(slots, key));
    let p = place(slots, key);
    assert(0 <= p < slots.len() && slots[p].key@ == key);
    if p < i {
        assert(slots[p].key@ != slots[i].key@);
    }
    if i < p {
        assert(slots[i].key@ != slots[p].key@);
    }
}

/// A slot with a key that no slot holds, put at the end, inserts its entry.
proof fn lemma_table_push(slots: Seq<CacheSlot>, slot: CacheSlot)
    requires
        distinct(slots),
        !holds(slots, slot.key@),
    ensures
        distinct(slots.push(slot)),
        table(slots.push(slot)) == table(slots).insert(slot.key@, slot.entry()),
{
    let after = slots.push(slot);
    assert(distinct(after)) by {
        assert forall|i: int, j: int| 0 <= i < j < after.len() implies (#[trigger] after[i]).key@
            != (#[trigger] after[j]).key@ by {
            if j < slots.len() {
                assert(slots[i].key@ != slots[j].key@);
            } else {
                assert(after[i] == slots[i]);
                assert(slots[i].key@ != slot.key@);
            }
        }
    }
    let goal = table(slots).insert(slot.key@, slot.entry());
    assert forall|key: Seq<char>| table(after).contains_key(key) <==> goal.contains_key(key) by {
        if holds(slots, key) {
            let p = place(slots, key);
            assert(after[p].key@ == key);
        }
        if key == slot.key@ {
            assert(after[slots.len() as int].key@ == key);
        }
        if holds(after, key) {
            let p = place(after, key);
            if p < slots.len() {
                assert(slots[p].key@ == key);
            }
        }
    }
    assert forall|key: Seq<char>| table(after).contains_key(key) implies table(after)[key]
        == goal[key] by {
        let p = place(after, key);
        lemma_place(after, p);
        if p < slots.len() {
            assert(after[p] == slots[p]);
            lemma_place(slots, p);
        }
    }
    assert(table(after) =~= goal);
}

/// A slot replaced by one with the same key replaces its entry.
proof fn lemma_table_update(slots: Seq<CacheSlot>, i: int, slot: CacheSlot)
    requires
        distinct(slots),
        0 <= i < slots.len(),
        slot.key@ == slots[i].key@,
    ensures
        distinct(slots.update(i, slot)),
        table(slots.update(i, slot)) == table(slots).insert(slot.key@, slot.entry()),
{
    let after = slots.update(i, slot);
    assert(distinct(after)) by {
        assert forall|a: int, b: int| 0 <= a < b < after.len() implies (#[trigger] after[a]).key@
            != (#[trigger] after[b]).key@ by {
            assert(slots[a].key@ != slots[b].key@);
        }
    }
    let goal = table(slots).insert(slot.key@, slot.entry());
    assert forall|key: Seq<char>| table(after).contains_key(key) <==> goal.contains_key(key) by {
        if holds(slots, key) {
            let p = place(slots, key);
            assert(after[p].key@ == key);
        }
        if key == slot.key@ {
            assert(after[i].key@ == key);
        }
        if holds(after, key) {
            let p = place(after, key);
            assert(slots[p].key@ == key);
        }
    }
    assert forall|key: Seq<char>| table(after).contains_key(key) implies table(after)[key]
        == goal[key] by {
        let p = place(after, key);
        lemma_place(after, p);
        if p != i {
            assert(after[p] == slots[p]);
            lemma_place(slots, p);
            lemma_place(slots, i);
        }
    }
    assert(table(after) =~= goal);
}

/// A slot taken out removes its entry.
proof fn lemma_table_remove(slots: Seq<CacheSlot>, i: int)
    requires
        distinct(slots),
        0 <= i < slots.len(),
    ensures
        distinct(slots.remove(i)),
        table(slots.remove(i)) == table(slots).remove(slots[i].key@),
{
    let after = slots.remove(i);
    let gone = slots[i].key@;
    assert forall|a: int| 0 <= a < after.len() implies #[trigger] after[a] == slots[if a < i {
        a
    } else {
        a + 1
    }] by {}
    assert(distinct(after)) by {
        assert forall|a: int, b: int| 0 <= a < b < after.len() implies (#[trigger] after[a]).key@
            != (#[trigger] after[b]).key@ by {
            let a0 = if a < i {
                a
            } else {
                a + 1
            };
            let b0 = if b < i {
                b
            } else {
                b + 1
            };
            assert(after[a] == slots[a0]);
            assert(after[b] == slots[b0]);
            assert(slots[a0].key@ != slots[b0].key@);
        }
    }
    let goal = table(slots).remove(gone);
    assert forall|key: Seq<char>| table(after).contains_key(key) <==> goal.contains_key(key) by {
        if holds(slots, key) && key != gone {
            let p = place(slots, key);
            let q = if p < i {
                p
            } else {
                p - 1
            };
            assert(after[q] == slots[p]);
            assert(after[q].key@ == key);
        }
        if holds(after, key) {
            let q = place(after, key);
            let p = if q < i {
                q
            } else {
                q + 1
            };
            assert(after[q] == slots[p]);
            assert(slots[p].key@ == key);
            if p < i {
                assert(slots[p].key@ != slots[i].key@);
            } else {
                assert(slots[i].key@ != slots[p].key@);
            }
        }
    }
    assert forall|key: Seq<char>| table(after).contains_key(key) implies table(after)[key]
        == goal[key] by {
        let q = place(after, key);
        lemma_place(after, q);
        let p = if q < i {
            q
        } else {
            q + 1
        };
        assert(after[q] == slots[p]);
        lemma_place(slots, p);
    }
    assert(table(after) =~= goal);
}

/// The deadline of an entry written at `now` with time-to-live `ttl`.
fn deadline(now: i64, ttl: Option<usize>) -> (d: Option<i64>)
    ensures
        d == deadline_of(now, ttl),
{
    match ttl {
        Some(seconds) => {
            let sum: i128 = now as i128 + seconds as i128;
            if sum <= i64::MAX as i128 {
                Some(sum as i64)
            } else {
                None
            }
        },
        None => None,
    }
}

/// A cache held in memory: one entry per key, kept until it is overwritten
/// or deleted. An entry past its deadline reads as a miss.
///
/// The store is reliable: it never reports `Unavailable`.
pub struct MemoryCache {
    slots: Vec<CacheSlot>,
    record: Ghost<Seq<Exchange>>,
}

impl MemoryCache {
    /// An empty cache.
    pub fn new() -> (cache: MemoryCache)
        ensures
            cache.wf(),
            cache.entries() == Map::<Seq<char>, Entry>::empty(),
            cache.exchanges() == Seq::<Exchange>::empty(),
    {
        let cache = MemoryCache { slots: Vec::new(), record: Ghost(Seq::empty()) };
        assert(cache.entries() =~= Map::<Seq<char>, Entry>::empty());
        cache
    }

    /// The number of entries held, those past their deadline included.
    pub fn len(&self) -> (n: usize)
        requires
            self.wf(),
        ensures
            n == self.entries().dom().len(),
            self.entries().dom().finite(),
    {
        proof {
            lemma_table_size(self.slots@);
        }
        self.slots.len()
    }

    /// Drops every entry that is past its deadline at `now`, and returns
    /// how many there were. What is read at `now` or later stays the same.
    pub fn purge(&mut self, now: i64) -> (dropped: usize)
        requires
            old(self).wf(),
        ensures
            final(self).wf(),
            final(self).exchanges() == old(self).exchanges(),
            final(self).entries() == unexpired(old(self).entries(), now),
            dropped == old(self).entries().dom().len() - final(self).entries().dom().len(),
    {
        let ghost before = table(self.slots@);
        let total = self.slots.len();
        proof {
            lemma_table_size(self.slots@);
        }
        let mut dropped: usize = 0;
        let mut i: usize = 0;
        while i < self.slots.len()
            invariant
                i <= self.slots@.len(),
                distinct(self.slots@),
                self.record@ == old(self).record@,
                self.slots@.len() + dropped == total,
                forall|j: int| 0 <= j < i ==> (#[trigger] self.slots@[j]).entry().live(now),
                forall|key: Seq<char>| #[trigger]
                    table(self.slots@).contains_key(key) ==> before.contains_key(key)
                        && before[key] == table(self.slots@)[key],
                forall|key: Seq<char>| #[trigger]
                    before.contains_key(key) && before[key].live(now) ==> table(
                        self.slots@,
                    ).contains_key(key),
            decreases self.slots@.len() - i,
        {
            let live = match self.slots[i].deadline {
                Some(deadline) => now < deadline,
                None => true,
            };
            if live {
                i = i + 1;
            } else {
                proof {
                    lemma_place(self.slots@, i as int);
                    lemma_table_remove(self.slots@, i as int);
                }
                let ghost kept = self.slots@;
                let _ = self.slots.remove(i);
                assert forall|j: int| 0 <= j < i implies (#[trigger] self.slots@[j]).entry().live(
                    now,
                ) by {
                    assert(self.slots@[j] == kept[j]);
                }
                dropped = dropped + 1;
            }
        }
        proof {
            lemma_table_size(self.slots@);
            assert forall|key: Seq<char>| #[trigger]
                table(self.slots@).contains_key(key) implies before[key].live(now) by {
                let p = place(self.slots@, key);
                lemma_place(self.slots@, p);
            }
            assert(table(self.slots@) =~= unexpired(before, now));
        }
        dropped
    }

    /// The place of the slot that holds `key`, if one does.
    fn find(&self, key: &String) -> (at: Option<usize>)
        ensures
            match at {
                Some(i) => i < self.slots@.len() && self.slots@[i as int].key@ == key@,
                None => !holds(self.slots@, key@),
            },
    {
        let mut i: usize = 0;
        while i < self.slots.len()
            invariant
                i <= self.slots@.len(),
                forall|k: int| 0 <= k < i ==> (#[trigger] self.slots@[k]).key@ != key@,
            decreases self.slots@.len() - i,
        {
            if self.slots[i].key == *key {
                return Some(i);
            }
            i = i + 1;
        }
        None
    }
}

/// The slots hold as many keys as there are slots.
proof fn lemma_table_size(slots: Seq<CacheSlot>)
    requires
        distinct(slots),
    ensures
        table(slots).dom().finite(),
        table(slots).dom().len() == slots.len(),
    decreases slots.len(),
{
    if slots.len() == 0 {
        assert(table(slots).dom() =~= Set::<Seq<char>>::empty());
    } else {
        let front = slots.drop_last();
        let last = slots.last();
        assert(distinct(front)) by {
            assert forall|i: int, j: int| 0 <= i < j < front.len() implies (#[trigger] front[i]).key@
                != (#[trigger] front[j]).key@ by {
                assert(slots[i].key@ != slots[j].key@);
            }
        }
        assert(!holds(front, last.key@)) by {
            if holds(front, last.key@) {
                let p = place(front, last.key@);
                assert(slots[p].key@ != slots[slots.len() - 1].key@);
            }
        }
        lemma_table_size(front);
        lemma_table_push(front, last);
        assert(front.push(last) =~= slots);
        assert(table(slots).dom() =~= table(front).dom().insert(last.key@));
        assert(!table(front).dom().contains(last.key@));
    }
}

impl MemoryCache {
    /// Reads the payload under `key`.
    fn read(&self, key: &str, now: i64) -> (found: Result<Option<String>, CacheError>)
        requires
            self.wf(),
        ensures
            fetched(self.entries(), key@, now, found),
    {
        let owned = String::from_str(key);
        match self.find(&owned) {
            Some(i) => {
                proof {
                    lemma_place(self.slots@, i as int);
                }
                let slot = &self.slots[i];
                let live = match slot.deadline {
                    Some(deadline) => now < deadline,
                    None => true,
                };
                if live {
                    Ok(Some(slot.payload.clone()))
                } else {
                    Ok(None)
                }
            },
            None => Ok(None),
        }
    }

    /// Writes the payload under `key`.
    fn write(&mut self, key: &str, payload: &str, ttl: Option<usize>, now: i64)
        requires
            old(self).wf(),
        ensures
            final(self).wf(),
            final(self).exchanges() == old(self).exchanges(),
            final(self).entries() == written(old(self).entries(), key@, payload@, ttl, now),
    {
        let owned = String::from_str(key);
        let at = self.find(&owned);
        let slot = CacheSlot {
            key: owned,
            payload: String::from_str(payload),
            deadline: deadline(now, ttl),
        };
        match at {
            Some(i) => {
                proof {
                    lemma_table_update(self.slots@, i as int, slot);
                }
                self.slots.set(i, slot);
            },
            None => {
                proof {
                    lemma_table_push(self.slots@, slot);
                }
                self.slots.push(slot);
            },
        }
    }

    /// Counts one up under `key`, or starts at 1.
    fn count(&mut self, key: &str, ttl: usize, now: i64) -> (count: Result<i64, CacheError>)
        requires
            old(self).wf(),
        ensures
            final(self).wf(),
            final(self).exchanges() == old(self).exchanges(),
            bumped(old(self).entries(), final(self).entries(), key@, ttl, now, count),
    {
        let owned = String::from_str(key);
        let at = self.find(&owned);
        match at {
            Some(i) => {
                proof {
                    lemma_place(self.slots@, i as int);
                }
                let live = match self.slots[i].deadline {
                    Some(deadline) => now < deadline,
                    None => true,
                };
                if live {
                    let stored = decode_i64(self.slots[i].payload.as_str());
                    match stored {
                        Ok(n) => {
                            if n < i64::MAX {
                                let slot = CacheSlot {
                                    key: owned,
                                    payload: encode_i64(n + 1),
                                    deadline: self.slots[i].deadline,
                                };
                                proof {
                                    lemma_table_update(self.slots@, i as int, slot);
                                }
                                self.slots.set(i, slot);
                                Ok(n + 1)
                            } else {
                                Err(
                                    CacheError::Malformed(
                                        String::from_str("the counter cannot grow"),
                                    ),
                                )
                            }
                        },
                        Err(e) => Err(e),
                    }
                } else {
                    let slot = CacheSlot {
                        key: owned,
                        payload: encode_i64(1),
                        deadline: deadline(now, Some(ttl)),
                    };
                    proof {
                        lemma_table_update(self.slots@, i as int, slot);
                    }
                    self.slots.set(i, slot);
                    Ok(1)
                }
            },
            None => {
                let slot = CacheSlot {
                    key: owned,
                    payload: encode_i64(1),
                    deadline: deadline(now, Some(ttl)),
                };
                proof {
                    lemma_table_push(self.slots@, slot);
                }
                self.slots.push(slot);
                Ok(1)
            },
        }
    }

    /// Removes what is under `key`.
    fn remove(&mut self, key: &str)
        requires
            old(self).wf(),
        ensures
            final(self).wf(),
            final(self).exchanges() == old(self).exchanges(),
            final(self).entries() == old(self).entries().remove(key@),
    {
        let owned = String::from_str(key);
        match self.find(&owned) {
            Some(i) => {
                proof {
                    lemma_table_remove(self.slots@, i as int);
                }
                let _ = self.slots.remove(i);
            },
            None => {
                assert(self.entries().remove(key@) =~= self.entries());
            },
        }
    }
}

impl CacheStore for MemoryCache {
    closed spec fn entries(&self) -> Map<Seq<char>, Entry> {
        table(self.slots@)
    }

    closed spec fn wf(&self) -> bool {
        distinct(self.slots@)
    }

    open spec fn reliable(&self) -> bool {
        true
    }

    closed spec fn exchanges(&self) -> Seq<Exchange> {
        self.record@
    }

    fn get(&mut self, key: &str, now: i64) -> (found: Result<Option<String>, CacheError>) {
        let found = self.read(key, now);
        self.record = Ghost(
            self.record@.push(
                Exchange { request: Request::Read(key@, now), reply: Reply::Found(found) },
            ),
        );
        found
    }

    fn set(&mut self, key: &str, payload: &str, ttl: Option<usize>, now: i64) -> (done: Result<
        (),
        CacheError,
    >) {
        self.write(key, payload, ttl, now);
        let done = Ok(());
        self.record = Ghost(
            self.record@.push(
                Exchange {
                    request: Request::Write(key@, payload@, ttl, now),
                    reply: Reply::Done(done),
                },
            ),
        );
        done
    }

    fn increment_or_init(&mut self, key: &str, ttl: usize, now: i64) -> (count: Result<
        i64,
        CacheError,
    >) {
        let count = self.count(key, ttl, now);
        self.record = Ghost(
            self.record@.push(
                Exchange { request: Request::Count(key@, ttl, now), reply: Reply::Counted(count) },
            ),
        );
        count
    }

    fn delete(&mut self, key: &str) -> (done: Result<(), CacheError>) {
        self.remove(key);
        let done = Ok(());
        self.record = Ghost(
            self.record@.push(
                Exchange { request: Request::Remove(key@), reply: Reply::Done(done) },
            ),
        );
        done
    }
}

} // verus!
