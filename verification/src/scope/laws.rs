//! What the coordinator guarantees, stated of every sequence of outcomes.

use crate::scope::model::{Action, Outcome, ScopeState};
use crate::scope::reach::{lemma_run_inv, rank};
use vstd::prelude::*;

verus! {

/// When a scope ends without a failure, the transaction of every backend was
/// committed, and no abort was tried on any of them.
pub proof fn law_success_commits_every_backend(n: nat, outcomes: Seq<Outcome>, j: usize)
    requires
        n <= usize::MAX,
        j < n,
        ScopeState::run(n, outcomes).finished(),
        ScopeState::run(n, outcomes).failure is None,
    ensures
        ScopeState::run(n, outcomes).slots[j as int] is Committed,
        ScopeState::run(n, outcomes).tried(Action::Commit(j)),
        !ScopeState::run(n, outcomes).tried(Action::Abort(j)),
{
    let s = ScopeState::run(n, outcomes);
    lemma_run_inv(n, outcomes);
    assert(s.slot_fits(j as int));
    assert(s.expects(Action::Commit(j)));
    assert(!s.expects(Action::Abort(j)));
}

/// When the operation body fails, the transaction of every backend has an
/// abort tried on it and none has a commit tried, once the scope has ended.
/// A body that fails is one that returns an error, that is cancelled, or
/// that runs out of time.
pub proof fn law_body_failure_aborts_every_backend(n: nat, outcomes: Seq<Outcome>, j: usize)
    requires
        n <= usize::MAX,
        j < n,
        ScopeState::run(n, outcomes).finished(),
        ScopeState::run(n, outcomes).failure matches Some(f) && f.step is Run,
    ensures
        ScopeState::run(n, outcomes).slots[j as int].abort_tried(),
        ScopeState::run(n, outcomes).tried(Action::Abort(j)),
        !ScopeState::run(n, outcomes).tried(Action::Commit(j)),
{
    let s = ScopeState::run(n, outcomes);
    lemma_run_inv(n, outcomes);
    assert(s.slot_fits(j as int));
    assert(s.expects(Action::Abort(j)));
    assert(!s.expects(Action::Commit(j)));
}

/// When a connection or the start of a transaction fails at backend `k`,
/// the body never runs, and the scope ends with an abort tried on every
/// backend before `k` and with nothing held, committed or aborted from `k`
/// on.
pub proof fn law_open_failure_unwinds(n: nat, outcomes: Seq<Outcome>, k: usize, j: usize)
    requires
        n <= usize::MAX,
        j < n,
        ScopeState::run(n, outcomes).finished(),
        ScopeState::run(n, outcomes).failure matches Some(f) && (f.step == Action::Connect(k)
            || f.step == Action::Begin(k)),
    ensures
        k < n,
        !ScopeState::run(n, outcomes).tried(Action::Run),
        !ScopeState::run(n, outcomes).tried(Action::Commit(j)),
        j < k ==> ScopeState::run(n, outcomes).slots[j as int].abort_tried()
            && ScopeState::run(n, outcomes).tried(Action::Abort(j)),
        j >= k ==> ScopeState::run(n, outcomes).slots[j as int] is Idle && !ScopeState::run(
            n,
            outcomes,
        ).tried(Action::Abort(j)),
{
    let s = ScopeState::run(n, outcomes);
    lemma_run_inv(n, outcomes);
    assert(!s.expects(Action::Run));
    assert(s.slot_fits(j as int));
    assert(s.expects(Action::Abort(j)) <==> j < k);
    assert(!s.expects(Action::Commit(j)));
}

/// When the commit of backend `k` fails, the backends before `k` stay
/// committed, and the scope ends with an abort tried on every backend after
/// `k`. Nothing more is tried on backend `k`.
pub proof fn law_commit_failure_keeps_earlier_commits(
    n: nat,
    outcomes: Seq<Outcome>,
    k: usize,
    j: usize,
)
    requires
        n <= usize::MAX,
        j < n,
        ScopeState::run(n, outcomes).finished(),
        ScopeState::run(n, outcomes).failure matches Some(f) && f.step == Action::Commit(k),
    ensures
        k < n,
        j < k ==> ScopeState::run(n, outcomes).slots[j as int] is Committed,
        j == k ==> ScopeState::run(n, outcomes).slots[j as int] is CommitFailed,
        j > k ==> ScopeState::run(n, outcomes).slots[j as int].abort_tried(),
        ScopeState::run(n, outcomes).tried(Action::Commit(j)) <==> j <= k,
        ScopeState::run(n, outcomes).tried(Action::Abort(j)) <==> j > k,
{
    let s = ScopeState::run(n, outcomes);
    lemma_run_inv(n, outcomes);
    assert(s.slot_fits(j as int));
    assert(s.expects(Action::Commit(j)) <==> j <= k);
    assert(s.expects(Action::Abort(j)) <==> j > k);
}

/// A scope that has ended holds no connection and no open transaction.
pub proof fn law_nothing_held_at_the_end(n: nat, outcomes: Seq<Outcome>, j: usize)
    requires
        n <= usize::MAX,
        j < n,
        ScopeState::run(n, outcomes).finished(),
    ensures
        !ScopeState::run(n, outcomes).slots[j as int].held(),
{
    let s = ScopeState::run(n, outcomes);
    lemma_run_inv(n, outcomes);
    assert(s.slot_fits(j as int));
}

/// Every transaction that was started is ended by exactly one commit or
/// abort: never both at any time, and one of the two once the scope has
/// ended. A transaction that was never started gets neither.
pub proof fn law_one_terminal_step_per_transaction(n: nat, outcomes: Seq<Outcome>, j: usize)
    requires
        n <= usize::MAX,
        j < n,
    ensures
        ({
            let s = ScopeState::run(n, outcomes);
            let committed = s.tried(Action::Commit(j));
            let aborted = s.tried(Action::Abort(j));
            let started = s.slots[j as int] !is Idle && s.slots[j as int] !is Connected;
            &&& !(committed && aborted)
            &&& committed || aborted ==> started
            &&& s.finished() && started ==> committed || aborted
        }),
{
    let s = ScopeState::run(n, outcomes);
    lemma_run_inv(n, outcomes);
    assert(s.slot_fits(j as int));
    assert(s.tried(Action::Commit(j)) <==> s.expects(Action::Commit(j)));
    assert(s.tried(Action::Abort(j)) <==> s.expects(Action::Abort(j)));
}

/// No step is tried twice.
pub proof fn law_no_step_twice(n: nat, outcomes: Seq<Outcome>, p: int, q: int)
    requires
        n <= usize::MAX,
        0 <= p < q < ScopeState::run(n, outcomes).journal.len(),
    ensures
        ScopeState::run(n, outcomes).journal[p] != ScopeState::run(n, outcomes).journal[q],
{
    let s = ScopeState::run(n, outcomes);
    lemma_run_inv(n, outcomes);
    assert(rank(s.journal[p], n as int) < rank(s.journal[q], n as int));
}

/// Steps are tried in one fixed order: transactions are opened in the order
/// in which the backends are declared, commits follow that order, and aborts
/// go through it backwards.
pub proof fn law_fixed_order(n: nat, outcomes: Seq<Outcome>, a: usize, b: usize)
    requires
        n <= usize::MAX,
    ensures
        ({
            let s = ScopeState::run(n, outcomes);
            &&& s.tried_before(Action::Connect(a), Action::Connect(b)) ==> a < b
            &&& s.tried_before(Action::Begin(a), Action::Begin(b)) ==> a < b
            &&& s.tried_before(Action::Commit(a), Action::Commit(b)) ==> a < b
            &&& s.tried_before(Action::Abort(a), Action::Abort(b)) ==> a > b
        }),
{
    let s = ScopeState::run(n, outcomes);
    lemma_run_inv(n, outcomes);
    lemma_before_by_rank(s, Action::Connect(a), Action::Connect(b));
    lemma_before_by_rank(s, Action::Begin(a), Action::Begin(b));
    lemma_before_by_rank(s, Action::Commit(a), Action::Commit(b));
    lemma_before_by_rank(s, Action::Abort(a), Action::Abort(b));
}

/// A transaction is ended only after it was started, the body runs only
/// after every transaction was started, and commits and aborts come only
/// after the body or in place of it.
pub proof fn law_steps_follow_their_cause(n: nat, outcomes: Seq<Outcome>, j: usize)
    requires
        n <= usize::MAX,
    ensures
        ({
            let s = ScopeState::run(n, outcomes);
            &&& s.tried(Action::Begin(j)) ==> s.tried_before(Action::Connect(j), Action::Begin(j))
            &&& s.tried(Action::Commit(j)) ==> s.tried_before(Action::Begin(j), Action::Commit(j))
                && s.tried_before(Action::Run, Action::Commit(j))
            &&& s.tried(Action::Abort(j)) ==> s.tried_before(Action::Begin(j), Action::Abort(j))
            &&& s.tried(Action::Run) && j < n ==> s.tried_before(Action::Begin(j), Action::Run)
        }),
{
    let s = ScopeState::run(n, outcomes);
    lemma_run_inv(n, outcomes);
    let m = n as int;
    if s.tried(Action::Begin(j)) {
        assert(s.expects(Action::Begin(j)));
        assert(s.expects(Action::Connect(j)));
        lemma_both_tried(s, Action::Connect(j), Action::Begin(j));
    }
    if s.tried(Action::Commit(j)) {
        assert(s.expects(Action::Commit(j)));
        assert(s.expects(Action::Begin(j)));
        assert(s.expects(Action::Run));
        lemma_both_tried(s, Action::Begin(j), Action::Commit(j));
        lemma_both_tried(s, Action::Run, Action::Commit(j));
    }
    if s.tried(Action::Abort(j)) {
        assert(s.expects(Action::Abort(j)));
        assert(s.expects(Action::Begin(j)));
        lemma_both_tried(s, Action::Begin(j), Action::Abort(j));
    }
    if s.tried(Action::Run) && j < n {
        assert(s.expects(Action::Run));
        assert(s.expects(Action::Begin(j)));
        lemma_both_tried(s, Action::Begin(j), Action::Run);
    }
}

/// Once a step has failed, the failure that the scope reports never
/// changes: neither a failed abort nor anything else that happens while the
/// scope unwinds takes its place.
pub proof fn law_first_failure_is_reported(n: nat, outcomes: Seq<Outcome>, more: Seq<Outcome>)
    requires
        n <= usize::MAX,
        ScopeState::run(n, outcomes).failure is Some,
    ensures
        ScopeState::run(n, outcomes + more).failure == ScopeState::run(n, outcomes).failure,
    decreases more.len(),
{
    if more.len() == 0 {
        assert(outcomes + more =~= outcomes);
    } else {
        let all = outcomes + more;
        assert(all.drop_last() =~= outcomes + more.drop_last());
        assert(all.last() == more.last());
        law_first_failure_is_reported(n, outcomes, more.drop_last());
        lemma_run_inv(n, all.drop_last());
    }
}

/// An abort that fails shows in the list of failed aborts, with its
/// backend, and nothing else does.
pub proof fn law_failed_aborts_are_listed(n: nat, outcomes: Seq<Outcome>, j: usize)
    requires
        n <= usize::MAX,
        j < n,
    ensures
        ScopeState::run(n, outcomes).slots[j as int] is AbortFailed <==> exists|p: int|
            0 <= p < ScopeState::run(n, outcomes).abort_failures.len() && (
            #[trigger] ScopeState::run(n, outcomes).abort_failures[p]).0 == j,
{
    let s = ScopeState::run(n, outcomes);
    lemma_run_inv(n, outcomes);
    if exists|p: int| 0 <= p < s.abort_failures.len() && (#[trigger] s.abort_failures[p]).0 == j {
        let p = choose|p: int|
            0 <= p < s.abort_failures.len() && (#[trigger] s.abort_failures[p]).0 == j;
        assert(s.slots[s.abort_failures[p].0 as int] is AbortFailed);
    }
}

/// A scope over `n` backends ends within `4 * n + 1` steps, whatever their
/// outcomes are.
pub proof fn law_scope_ends(n: nat, outcomes: Seq<Outcome>)
    requires
        n <= usize::MAX,
        outcomes.len() >= 4 * n + 1,
    ensures
        ScopeState::run(n, outcomes).finished(),
{
    lemma_progress(n, outcomes);
}

/// A scope without backends only runs the body, and ends as the body does.
pub proof fn law_empty_scope(outcome: Outcome)
    ensures
        ({
            let s = ScopeState::run(0, seq![outcome]);
            &&& s.finished()
            &&& s.journal == seq![Action::Run]
            &&& outcome is Done ==> s.failure is None
            &&& outcome matches Outcome::Failed(cause) ==> s.failure matches Some(f) && f.step
                == Action::Run && f.cause == cause
        }),
{
    let one = seq![outcome];
    assert(one.drop_last() =~= Seq::<Outcome>::empty());
    assert(one.last() == outcome);
    assert(ScopeState::run(0, one.drop_last()) == ScopeState::init(0)) by {
        reveal_with_fuel(ScopeState::run, 2);
    }
    let s = ScopeState::run(0, one);
    assert(s == ScopeState::init(0).next(outcome));
    assert(s.journal =~= seq![Action::Run]);
}

/// Of two steps that were both tried, the one of lower rank came first.
proof fn lemma_both_tried(s: ScopeState, first: Action, second: Action)
    requires
        s.inv(),
        s.tried(first),
        s.tried(second),
        rank(first, s.slots.len() as int) < rank(second, s.slots.len() as int),
    ensures
        s.tried_before(first, second),
{
    let p = choose|p: int| 0 <= p < s.journal.len() && s.journal[p] == first;
    let q = choose|q: int| 0 <= q < s.journal.len() && s.journal[q] == second;
    if q < p {
        assert(rank(s.journal[q], s.slots.len() as int) < rank(
            s.journal[p],
            s.slots.len() as int,
        ));
    }
    assert(p < q);
}

/// A step that came before another has the lower rank.
proof fn lemma_before_by_rank(s: ScopeState, first: Action, second: Action)
    requires
        s.inv(),
    ensures
        s.tried_before(first, second) ==> rank(first, s.slots.len() as int) < rank(
            second,
            s.slots.len() as int,
        ),
{
    if s.tried_before(first, second) {
        let (p, q) = choose|p: int, q: int|
            0 <= p < q < s.journal.len() && s.journal[p] == first && s.journal[q] == second;
        assert(rank(s.journal[p], s.slots.len() as int) < rank(
            s.journal[q],
            s.slots.len() as int,
        ));
    }
}

/// While a scope has not ended, the rank of the step it waits for is at
/// least the number of steps taken.
proof fn lemma_progress(n: nat, outcomes: Seq<Outcome>)
    requires
        n <= usize::MAX,
    ensures
        !ScopeState::run(n, outcomes).finished() ==> outcomes.len() <= rank(
            ScopeState::run(n, outcomes).pending(),
            n as int,
        ) <= 4 * n,
        ScopeState::run(n, outcomes).journal.len() <= outcomes.len(),
    decreases outcomes.len(),
{
    let s = ScopeState::run(n, outcomes);
    lemma_run_inv(n, outcomes);
    if outcomes.len() > 0 {
        let before = ScopeState::run(n, outcomes.drop_last());
        lemma_progress(n, outcomes.drop_last());
        lemma_run_inv(n, outcomes.drop_last());
        if !s.finished() {
            assert(!before.finished());
            assert(s.journal == before.journal.push(before.pending()));
            assert(s.journal[before.journal.len() as int] == before.pending());
        }
    }
}

} // verus!
