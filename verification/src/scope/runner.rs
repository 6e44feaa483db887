//! Running a scope in place, against backends that are called directly.

use crate::error::DatabaseError;
use crate::scope::laws::{
    law_body_failure_aborts_every_backend, law_nothing_held_at_the_end,
    law_success_commits_every_backend,
};
use crate::scope::ledger::{body_outcome, reported, Duty, Ledger, Report};
use crate::scope::model::{Action, Cause, Failure, Outcome, ScopeState};
use crate::scope::reach::{lemma_next_rank, rank};
use vstd::prelude::*;

verus! {

/// Used for establishing connections to a backend.
pub trait RepositoryAccess<C> {
    /// Checks a connection out. It goes back when the value is dropped.
    fn connect(&self) -> Result<C, DatabaseError>;
}

/// What a connection offers so that work on it can be made atomic.
///
/// Where the connection itself carries the transaction, the transaction
/// handle is the connection. Where the backend hands out a session, the
/// handle holds the connection and the session.
pub trait Atomic: Sized {
    type TransactionResult;

    fn start_transaction(self) -> Result<Self::TransactionResult, DatabaseError>;

    fn commit_transaction(tx: Self::TransactionResult) -> Result<(), DatabaseError>;

    fn abort_transaction(tx: Self::TransactionResult) -> Result<(), DatabaseError>;
}

/// The body of a scope: work on the open transactions, one per backend, in
/// the order in which the scope declares its backends.
pub trait Operation<T> {
    type Output;

    type Error;

    fn run(self, transactions: &mut [T]) -> Result<Self::Output, Self::Error>;
}

/// Why a scope did not commit.
#[derive(Debug)]
pub enum ScopeError<E> {
    /// A step of the coordinator failed: a connection, the start of a
    /// transaction, or a commit.
    Step(Failure),
    /// The operation body returned this error.
    Operation(E),
}

/// The result of a scope with its report.
#[derive(Debug)]
pub struct Completed<T, E> {
    pub result: Result<T, ScopeError<E>>,
    pub report: Report,
}

/// The result of a scope that ended with `failure` as its first failure,
/// where the body, if it ran to its end, returned `returned`: the body's
/// value where nothing failed, the body's error where the body failed with
/// one, and otherwise the first failure. A scope that reports no failure
/// and has no value to show counts as cancelled.
pub open spec fn conclusion<T, E>(failure: Option<Failure>, returned: Option<Result<T, E>>)
    -> Result<T, ScopeError<E>> {
    match (failure, returned) {
        (None, Some(Ok(value))) => Ok(value),
        (None, _) => Err(ScopeError::Step(Failure { step: Action::Run, cause: Cause::Cancelled })),
        (Some(f), Some(Err(e))) => if f.step is Run && f.cause is Body {
            Err(ScopeError::Operation(e))
        } else {
            Err(ScopeError::Step(f))
        },
        (Some(f), _) => Err(ScopeError::Step(f)),
    }
}

/// Makes the result of a scope from its first failure and from what the
/// body returned.
pub fn conclude<T, E>(failure: Option<Failure>, returned: Option<Result<T, E>>) -> (result: Result<
    T,
    ScopeError<E>,
>)
    ensures
        result == conclusion(failure, returned),
{
    match failure {
        None => match returned {
            Some(Ok(value)) => Ok(value),
            _ => Err(ScopeError::Step(Failure { step: Action::Run, cause: Cause::Cancelled })),
        },
        Some(f) => match returned {
            Some(Err(e)) => match (&f.step, &f.cause) {
                (Action::Run, Cause::Body) => Err(ScopeError::Operation(e)),
                _ => Err(ScopeError::Step(f)),
            },
            _ => Err(ScopeError::Step(f)),
        },
    }
}

impl<T, E> Completed<T, E> {
    /// Whether the completed scope is the end of the run `s`: the report
    /// shows the run's slots, journal and failed aborts, and the result is
    /// `Ok` exactly when no step failed, `Operation` exactly when the body
    /// returned an error, and otherwise the run's first failure.
    pub open spec fn ends(self, s: ScopeState) -> bool {
        &&& s.finished()
        &&& self.report.slots@ == s.slots
        &&& self.report.journal@ == s.journal
        &&& self.report.abort_failures@ == s.abort_failures
        &&& match self.result {
            Ok(_) => s.failure is None,
            Err(ScopeError::Operation(_)) => s.failure == Some(
                Failure { step: Action::Run, cause: Cause::Body },
            ),
            Err(ScopeError::Step(f)) => s.failure == Some(f) && f != (Failure {
                step: Action::Run,
                cause: Cause::Body,
            }),
        }
    }
}

/// Runs `operation` atomically against `repositories`.
///
/// Every step and the value that it works on come from a [`Ledger`]: the
/// connection that a repository hands out goes to the start of its
/// transaction, the transactions that have started go to the body, and
/// after the body each of them goes to one commit or abort, the first
/// opened to the first commit and the last opened to the first abort.
///
/// A transaction is opened on each repository in turn. If one cannot be
/// opened, those already open are aborted, last opened first. Otherwise the
/// body runs. If it returns `Ok`, the transactions are committed in order;
/// a failed commit leaves the earlier ones committed and aborts the later
/// ones. If it returns `Err`, all are aborted, last opened first, and the
/// body's error is the one returned, whatever the aborts do.
///
/// What each call returns goes to the ledger as it is: the step functions
/// `returned` of the ledger's tokens say, for a value and for an error, what
/// becomes of the scope and of the handle.
///
/// What comes back is the end of a scope over `repositories.len()` backends
/// for the outcomes that the calls had, so everything proved of such runs
/// holds of it.
///
/// A body that panics unwinds through this function: no abort is tried,
/// and the open transactions are dropped as the panic passes. Whoever wants
/// them aborted catches the panic around the body and returns an error
/// from it.
pub fn atomic<R, C, Op>(repositories: &Vec<R>, operation: Op) -> (done: Completed<
    Op::Output,
    Op::Error,
>) where R: RepositoryAccess<C>, C: Atomic, Op: Operation<C::TransactionResult>
    ensures
        done.report.slots@.len() == repositories@.len(),
        exists|outcomes: Seq<Outcome>|
            done.ends(#[trigger] ScopeState::run(repositories@.len(), outcomes)),
{
    let n = repositories.len();
    let mut ledger: Ledger<C, C::TransactionResult> = Ledger::new(n);
    let mut operation: Option<Op> = Some(operation);
    let mut returned: Option<Result<Op::Output, Op::Error>> = None;
    loop
        invariant
            n == repositories@.len(),
            ledger@.backends() == n,
            ledger.sound(),
            !ledger@.body_tried() ==> operation is Some,
            ledger@.failure is None && ledger@.body_tried() ==> returned matches Some(Ok(_)),
            ledger@.failure == Some(Failure { step: Action::Run, cause: Cause::Body })
                ==> returned matches Some(Err(_)),
        ensures
            ledger@.finished(),
            ledger@.backends() == n,
            ledger.sound(),
            ledger@.failure is None ==> returned matches Some(Ok(_)),
            ledger@.failure == Some(Failure { step: Action::Run, cause: Cause::Body })
                ==> returned matches Some(Err(_)),
        decreases 4 * n + 1 - rank(ledger@.pending(), n as int),
    {
        let ghost before = ledger@;
        match ledger.duty() {
            Duty::Finish(done) => {
                ledger = done;
                break ;
            },
            Duty::Connect(i, step) => {
                let connection = repositories[i].connect();
                proof {
                    lemma_next_rank(before, reported(connection));
                }
                ledger = step.returned(connection);
            },
            Duty::Begin(_, step, connection) => {
                let transaction = connection.start_transaction();
                proof {
                    lemma_next_rank(before, reported(transaction));
                }
                ledger = step.returned(transaction);
            },
            Duty::Run(step, transactions) => {
                let mut transactions = transactions;
                let value = match operation.take() {
                    Some(op) => op.run(transactions.as_mut_slice()),
                    None => vstd::pervasive::unreached(),
                };
                proof {
                    lemma_next_rank(before, body_outcome(value));
                }
                let (next, value) = step.returned(transactions, value);
                ledger = next;
                returned = Some(value);
            },
            Duty::Commit(_, step, transaction) => {
                let committed = C::commit_transaction(transaction);
                proof {
                    lemma_next_rank(before, reported(committed));
                }
                ledger = step.returned(committed);
            },
            Duty::Abort(_, step, transaction) => {
                let aborted = C::abort_transaction(transaction);
                proof {
                    lemma_next_rank(before, reported(aborted));
                }
                ledger = step.returned(aborted);
            },
        }
    }
    let ghost outcomes = ledger.history();
    let (failure, report) = ledger.finish();
    let result = conclude(failure, returned);
    let done = Completed { result, report };
    assert(done.ends(ScopeState::run(n as nat, outcomes)));
    done
}

/// Where a completed scope returns `Ok`, the transaction of every backend
/// was committed.
pub proof fn law_ok_means_every_backend_committed<T, E>(
    done: Completed<T, E>,
    n: nat,
    outcomes: Seq<Outcome>,
    j: usize,
)
    requires
        n <= usize::MAX,
        j < n,
        done.ends(ScopeState::run(n, outcomes)),
        done.result is Ok,
    ensures
        done.report.slots@[j as int] is Committed,
        done.report.journal@.contains(Action::Commit(j)),
        !done.report.journal@.contains(Action::Abort(j)),
{
    law_success_commits_every_backend(n, outcomes, j);
}

/// Where a completed scope returns the body's error, the transaction of
/// every backend had an abort tried on it, and none was committed.
pub proof fn law_body_error_means_every_backend_aborted<T, E>(
    done: Completed<T, E>,
    n: nat,
    outcomes: Seq<Outcome>,
    j: usize,
)
    requires
        n <= usize::MAX,
        j < n,
        done.ends(ScopeState::run(n, outcomes)),
        done.result matches Err(ScopeError::Operation(_)),
    ensures
        done.report.slots@[j as int].abort_tried(),
        done.report.journal@.contains(Action::Abort(j)),
        !done.report.journal@.contains(Action::Commit(j)),
{
    law_body_failure_aborts_every_backend(n, outcomes, j);
}

/// However a completed scope ends, it holds no connection and no open
/// transaction.
pub proof fn law_completed_scope_holds_nothing<T, E>(
    done: Completed<T, E>,
    n: nat,
    outcomes: Seq<Outcome>,
    j: usize,
)
    requires
        n <= usize::MAX,
        j < n,
        done.ends(ScopeState::run(n, outcomes)),
    ensures
        !done.report.slots@[j as int].held(),
{
    law_nothing_held_at_the_end(n, outcomes, j);
}

} // verus!
