//! What holds of every state that a scope can reach.

use crate::scope::model::{Action, Outcome, Phase, ScopeState};
use vstd::prelude::*;

verus! {

/// The place of a step in the one order in which a scope over `n` backends
/// tries its steps: connections and transactions backend by backend, the
/// body, commits in declaration order, aborts in the opposite order.
pub open spec fn rank(action: Action, n: int) -> int {
    match action {
        Action::Connect(i) => 2 * i,
        Action::Begin(i) => 2 * i + 1,
        Action::Run => 2 * n,
        Action::Commit(i) => 2 * n + 1 + i,
        Action::Abort(i) => 4 * n - i,
        Action::Finish => 4 * n + 1,
    }
}

impl ScopeState {
    /// How many backends had their transaction started.
    pub open spec fn opened(self) -> int {
        match self.failure {
            Some(f) => match f.step {
                Action::Connect(k) => k as int,
                Action::Begin(k) => k as int,
                _ => self.slots.len() as int,
            },
            None => match self.phase {
                Phase::Connecting(i) => i as int,
                Phase::Starting(i) => i as int,
                _ => self.slots.len() as int,
            },
        }
    }

    /// How many backends had a commit tried, the failed one included.
    pub open spec fn commits_tried(self) -> int {
        match self.failure {
            Some(f) => match f.step {
                Action::Commit(k) => k + 1,
                _ => 0,
            },
            None => match self.phase {
                Phase::Committing(i) => i as int,
                Phase::Finished => self.slots.len() as int,
                _ => 0,
            },
        }
    }

    /// The backends from here up to `opened()` had an abort tried.
    pub open spec fn unwound_to(self) -> int {
        match self.phase {
            Phase::Aborting { upto, floor } => upto as int,
            Phase::Finished => self.commits_tried(),
            _ => self.opened(),
        }
    }

    /// How many transactions are open: those of the backends from
    /// `commits_tried()` up to `unwound_to()`.
    pub open spec fn open_slots(self) -> int {
        self.unwound_to() - self.commits_tried()
    }

    /// How many backends had a connection asked for.
    pub open spec fn connects_tried(self) -> int {
        match self.failure {
            Some(f) => match f.step {
                Action::Connect(k) => k + 1,
                Action::Begin(k) => k + 1,
                _ => self.slots.len() as int,
            },
            None => match self.phase {
                Phase::Connecting(i) => i as int,
                Phase::Starting(i) => i + 1,
                _ => self.slots.len() as int,
            },
        }
    }

    /// How many backends had the start of a transaction tried.
    pub open spec fn begins_tried(self) -> int {
        match self.failure {
            Some(f) => match f.step {
                Action::Connect(k) => k as int,
                Action::Begin(k) => k + 1,
                _ => self.slots.len() as int,
            },
            None => self.opened(),
        }
    }

    /// Whether the operation body was started.
    pub open spec fn body_tried(self) -> bool {
        match self.failure {
            Some(f) => f.step is Run || f.step is Commit,
            None => self.phase is Committing || self.phase is Finished,
        }
    }

    /// What the journal of this state holds.
    pub open spec fn expects(self, action: Action) -> bool {
        match action {
            Action::Connect(i) => i < self.connects_tried(),
            Action::Begin(i) => i < self.begins_tried(),
            Action::Run => self.body_tried(),
            Action::Commit(i) => i < self.commits_tried(),
            Action::Abort(i) => self.unwound_to() <= i < self.opened(),
            Action::Finish => false,
        }
    }

    /// What the slot of backend `j` holds in this state.
    pub open spec fn slot_fits(self, j: int) -> bool {
        let slot = self.slots[j];
        if j < self.commits_tried() {
            if self.failure matches Some(f) && f.step == Action::Commit(j as usize) {
                slot is CommitFailed
            } else {
                slot is Committed
            }
        } else if j < self.unwound_to() {
            slot is Open
        } else if j < self.opened() {
            slot.abort_tried()
        } else if self.phase == Phase::Starting(j as usize) {
            slot is Connected
        } else {
            slot is Idle
        }
    }

    /// Phase and first failure go together.
    pub open spec fn phase_fits(self) -> bool {
        let n = self.slots.len();
        &&& match self.phase {
            Phase::Connecting(i) => i < n && self.failure is None,
            Phase::Starting(i) => i < n && self.failure is None,
            Phase::Running => self.failure is None,
            Phase::Committing(i) => i < n && self.failure is None,
            Phase::Aborting { upto, floor } => {
                &&& self.failure is Some
                &&& floor == self.commits_tried()
                &&& floor < upto <= self.opened()
            },
            Phase::Finished => true,
        }
        &&& match self.failure {
            Some(f) => match f.step {
                Action::Connect(k) => k < n,
                Action::Begin(k) => k < n,
                Action::Run => true,
                Action::Commit(k) => k < n,
                _ => false,
            },
            None => true,
        }
    }

    /// The invariant of the coordinator.
    pub open spec fn inv(self) -> bool {
        let n = self.slots.len() as int;
        &&& n <= usize::MAX
        &&& self.phase_fits()
        &&& forall|j: int| 0 <= j < n ==> #[trigger] self.slot_fits(j)
        &&& forall|a: Action| #[trigger] self.journal.contains(a) <==> self.expects(a)
        &&& forall|p: int, q: int|
            0 <= p < q < self.journal.len() ==> rank(#[trigger] self.journal[p], n) < rank(
                #[trigger] self.journal[q],
                n,
            )
        &&& forall|p: int|
            0 <= p < self.journal.len() ==> rank(#[trigger] self.journal[p], n) < rank(
                self.pending(),
                n,
            )
        &&& forall|p: int|
            0 <= p < self.abort_failures.len() ==> {
                let j = (#[trigger] self.abort_failures[p]).0;
                j < n && self.slots[j as int] is AbortFailed
            }
        &&& forall|j: int|
            0 <= j < n && self.slots[j] is AbortFailed ==> exists|p: int|
                0 <= p < self.abort_failures.len() && (#[trigger] self.abort_failures[p]).0 == j
    }
}

/// Appending a step adds that step to what the journal holds, and nothing
/// else.
pub proof fn lemma_contains_push(journal: Seq<Action>, step: Action)
    ensures
        forall|a: Action| #[trigger]
            journal.push(step).contains(a) <==> journal.contains(a) || a == step,
{
    assert forall|a: Action| #[trigger]
        journal.push(step).contains(a) <==> journal.contains(a) || a == step by {
        if journal.contains(a) {
            let p = choose|p: int| 0 <= p < journal.len() && journal[p] == a;
            assert(journal.push(step)[p] == a);
        }
        if a == step {
            assert(journal.push(step)[journal.len() as int] == a);
        }
        if journal.push(step).contains(a) {
            let p = choose|p: int| 0 <= p < journal.push(step).len() && journal.push(step)[p] == a;
            if p < journal.len() {
                assert(journal[p] == a);
            }
        }
    }
}

/// A fresh scope meets the invariant.
pub proof fn lemma_init_inv(n: nat)
    requires
        n <= usize::MAX,
    ensures
        ScopeState::init(n).inv(),
{
    let s = ScopeState::init(n);
    assert forall|a: Action| #[trigger] s.journal.contains(a) <==> s.expects(a) by {
        if s.journal.contains(a) {
            let p = choose|p: int| 0 <= p < s.journal.len() && s.journal[p] == a;
        }
    }
}

/// Every step keeps the invariant.
pub proof fn lemma_next_inv(s: ScopeState, outcome: Outcome)
    requires
        s.inv(),
    ensures
        s.next(outcome).inv(),
{
    let t = s.next(outcome);
    let n = s.slots.len() as int;
    if s.phase is Finished {
        return ;
    }
    lemma_contains_push(s.journal, s.pending());
    assert(t.journal == s.journal.push(s.pending()));
    assert(t.slots.len() == n);
    assert(t.phase_fits());
    assert forall|j: int| 0 <= j < n implies #[trigger] t.slot_fits(j) by {
        assert(s.slot_fits(j));
    }
    assert forall|a: Action| #[trigger] t.journal.contains(a) <==> t.expects(a) by {
        assert(s.journal.contains(a) <==> s.expects(a));
    }
    assert forall|p: int, q: int| 0 <= p < q < t.journal.len() implies rank(
        #[trigger] t.journal[p],
        n,
    ) < rank(#[trigger] t.journal[q], n) by {
        if q < s.journal.len() {
            assert(t.journal[p] == s.journal[p]);
            assert(t.journal[q] == s.journal[q]);
        } else {
            assert(t.journal[p] == s.journal[p]);
            assert(t.journal[q] == s.pending());
        }
    }
    assert forall|p: int| 0 <= p < t.journal.len() implies rank(#[trigger] t.journal[p], n) < rank(
        t.pending(),
        n,
    ) by {
        if p < s.journal.len() {
            assert(t.journal[p] == s.journal[p]);
        } else {
            assert(t.journal[p] == s.pending());
        }
    }
    assert forall|p: int| 0 <= p < t.abort_failures.len() implies {
        let j = (#[trigger] t.abort_failures[p]).0;
        j < n && t.slots[j as int] is AbortFailed
    } by {
        if p < s.abort_failures.len() {
            assert(t.abort_failures[p] == s.abort_failures[p]);
            let j = s.abort_failures[p].0;
            assert(s.slots[j as int] is AbortFailed);
            assert(s.slot_fits(j as int));
        }
    }
    assert forall|j: int| 0 <= j < n && t.slots[j] is AbortFailed implies exists|p: int|
        0 <= p < t.abort_failures.len() && (#[trigger] t.abort_failures[p]).0 == j by {
        if s.slots[j] is AbortFailed {
            let p = choose|p: int|
                0 <= p < s.abort_failures.len() && (#[trigger] s.abort_failures[p]).0 == j;
            assert(t.abort_failures[p] == s.abort_failures[p]);
        } else {
            assert(s.slot_fits(j));
            let p = s.abort_failures.len() as int;
            assert(t.abort_failures[p].0 == j);
        }
    }
}

/// In every state that a scope can reach, the slots that are `Open` are
/// those of the backends from `commits_tried()` up to `unwound_to()`, so
/// there are `open_slots()` of them.
pub proof fn lemma_open_slots(s: ScopeState, j: int)
    requires
        s.inv(),
        0 <= j < s.slots.len(),
    ensures
        s.slots[j] is Open <==> s.commits_tried() <= j < s.unwound_to(),
        0 <= s.commits_tried() <= s.unwound_to() <= s.slots.len(),
{
    assert(s.slot_fits(j));
}

/// Every step of a scope that has not ended moves it to a step of higher
/// rank, and no rank is above that of `Finish`.
pub proof fn lemma_next_rank(s: ScopeState, outcome: Outcome)
    requires
        s.inv(),
        !s.finished(),
    ensures
        rank(s.pending(), s.slots.len() as int) < rank(
            s.next(outcome).pending(),
            s.slots.len() as int,
        ) <= 4 * s.slots.len() + 1,
{
    let t = s.next(outcome);
    lemma_next_inv(s, outcome);
    assert(t.journal == s.journal.push(s.pending()));
    assert(t.journal[s.journal.len() as int] == s.pending());
}

/// Every state that a fresh scope can reach meets the invariant.
pub proof fn lemma_run_inv(n: nat, outcomes: Seq<Outcome>)
    requires
        n <= usize::MAX,
    ensures
        ScopeState::run(n, outcomes).inv(),
        ScopeState::run(n, outcomes).slots.len() == n,
    decreases outcomes.len(),
{
    if outcomes.len() == 0 {
        lemma_init_inv(n);
    } else {
        lemma_run_inv(n, outcomes.drop_last());
        lemma_next_inv(ScopeState::run(n, outcomes.drop_last()), outcomes.last());
    }
}

} // verus!
