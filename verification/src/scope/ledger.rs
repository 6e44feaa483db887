//! A scope together with what it holds: the connection that waits for its
//! transaction, and the transactions that are open.
//!
//! The ledger hands out each step with the value that the step works on
//! and with a token for the report. A token takes only the reports that
//! answer its step, and gives the ledger back. So a connection goes to
//! exactly one start of a transaction, and a transaction handle goes to
//! exactly one commit or abort: whoever performs the steps never picks a
//! handle and cannot keep one.
//!
//! The open transactions stand in opening order. The first of them is the
//! transaction of backend `commits_tried()`, and each next one that of the
//! next backend.

use crate::error::DatabaseError;
use crate::scope::machine::AtomicScope;
use crate::scope::model::{Action, Cause, Failure, Outcome, ScopeState, Slot};
use crate::scope::reach::{lemma_next_rank, rank};
use vstd::prelude::*;

verus! {

/// What a scope did, for the caller's log.
#[derive(Debug)]
pub struct Report {
    /// What became of each backend's transaction.
    pub slots: Vec<Slot>,
    /// Every step tried, oldest first.
    pub journal: Vec<Action>,
    /// The aborts that failed while the scope unwound.
    pub abort_failures: Vec<(usize, Cause)>,
}

/// The outcome of a step for what a backend returned: done where it
/// succeeded, and failed with the backend's own error where it did not.
pub open spec fn reported<V>(returned: Result<V, DatabaseError>) -> Outcome {
    match returned {
        Ok(_) => Outcome::Done,
        Err(e) => Outcome::Failed(Cause::Database(e)),
    }
}

/// The outcome of the body for what it returned: done where it succeeded,
/// and failed as the body's where it returned an error.
pub open spec fn body_outcome<V, E>(returned: Result<V, E>) -> Outcome {
    match returned {
        Ok(_) => Outcome::Done,
        Err(_) => Outcome::Failed(Cause::Body),
    }
}

/// A scope and what it holds, between two steps.
pub struct Ledger<C, T> {
    scope: AtomicScope,
    connection: Option<C>,
    transactions: Vec<T>,
}

/// The report of a `Connect` that is out.
pub struct Connecting<C, T> {
    scope: AtomicScope,
    connection: Option<C>,
    transactions: Vec<T>,
}

/// The report of a `Begin` that is out, with its connection.
pub struct Starting<C, T> {
    scope: AtomicScope,
    connection: Option<C>,
    transactions: Vec<T>,
}

/// The report of a `Run` that is out, with the open transactions.
pub struct Running<C, T> {
    scope: AtomicScope,
    connection: Option<C>,
    transactions: Vec<T>,
}

/// The report of a `Commit` or an `Abort` that is out, with its
/// transaction.
pub struct Ending<C, T> {
    scope: AtomicScope,
    connection: Option<C>,
    transactions: Vec<T>,
}

/// A step to perform, with the value to perform it on and the token that
/// takes the report.
pub enum Duty<C, T> {
    /// Ask the driver of this backend for a connection.
    Connect(usize, Connecting<C, T>),
    /// Start a transaction of this backend on the connection.
    Begin(usize, Starting<C, T>, C),
    /// Run the operation body on the open transactions, which are those of
    /// the backends in declaration order.
    Run(Running<C, T>, Vec<T>),
    /// Commit the transaction, which is that of this backend.
    Commit(usize, Ending<C, T>, T),
    /// Abort the transaction, which is that of this backend.
    Abort(usize, Ending<C, T>, T),
    /// Nothing is left to do: [`Ledger::finish`].
    Finish(Ledger<C, T>),
}

impl<C, T> View for Ledger<C, T> {
    type V = ScopeState;

    closed spec fn view(&self) -> ScopeState {
        self.scope@
    }
}

impl<C, T> View for Connecting<C, T> {
    type V = ScopeState;

    closed spec fn view(&self) -> ScopeState {
        self.scope@
    }
}

impl<C, T> View for Starting<C, T> {
    type V = ScopeState;

    closed spec fn view(&self) -> ScopeState {
        self.scope@
    }
}

impl<C, T> View for Running<C, T> {
    type V = ScopeState;

    closed spec fn view(&self) -> ScopeState {
        self.scope@
    }
}

impl<C, T> View for Ending<C, T> {
    type V = ScopeState;

    closed spec fn view(&self) -> ScopeState {
        self.scope@
    }
}

impl<C, T> Duty<C, T> {
    /// Whether the duty is the pending step of `ledger`, with the value
    /// that the step works on taken out of the ledger and everything else
    /// left in the token: the connection that waited for a `Begin`, all
    /// open transactions for a `Run`, the first open transaction for a
    /// `Commit`, and the last open one for an `Abort`.
    pub open spec fn taken_from(self, ledger: Ledger<C, T>) -> bool {
        match self {
            Duty::Connect(i, step) => {
                &&& ledger@.pending() == Action::Connect(i)
                &&& step@ == ledger@
                &&& step.history() == ledger.history()
                &&& step.open() == ledger.open()
            },
            Duty::Begin(i, step, connection) => {
                &&& ledger@.pending() == Action::Begin(i)
                &&& ledger.waiting() == Some(connection)
                &&& step@ == ledger@
                &&& step.history() == ledger.history()
                &&& step.open() == ledger.open()
            },
            Duty::Run(step, transactions) => {
                &&& ledger@.pending() == Action::Run
                &&& transactions@ == ledger.open()
                &&& step@ == ledger@
                &&& step.history() == ledger.history()
            },
            Duty::Commit(i, step, transaction) => {
                &&& ledger@.pending() == Action::Commit(i)
                &&& ledger.open().len() > 0
                &&& transaction == ledger.open().first()
                &&& step.open() == ledger.open().drop_first()
                &&& step@ == ledger@
                &&& step.history() == ledger.history()
            },
            Duty::Abort(i, step, transaction) => {
                &&& ledger@.pending() == Action::Abort(i)
                &&& ledger.open().len() > 0
                &&& transaction == ledger.open().last()
                &&& step.open() == ledger.open().drop_last()
                &&& step@ == ledger@
                &&& step.history() == ledger.history()
            },
            Duty::Finish(done) => {
                &&& ledger@.pending() == Action::Finish
                &&& done@ == ledger@
                &&& done.history() == ledger.history()
                &&& done.open() == ledger.open()
                &&& done.waiting() == ledger.waiting()
                &&& done.sound()
            },
        }
    }
}

impl<C, T> Ledger<C, T> {
    /// The outcomes that the scope has taken, oldest first.
    pub closed spec fn history(&self) -> Seq<Outcome> {
        self.scope.history()
    }

    /// The connection that waits for its transaction to start.
    pub closed spec fn waiting(&self) -> Option<C> {
        self.connection
    }

    /// The transactions that are open, in opening order.
    pub closed spec fn open(&self) -> Seq<T> {
        self.transactions@
    }

    /// What holds of every ledger: the state of its scope is the one that a
    /// fresh scope reaches by its history, it holds one transaction for
    /// each slot that is open, and a connection waits exactly while the
    /// start of its transaction is pending.
    pub open spec fn sound(&self) -> bool {
        &&& self@ == ScopeState::run(self@.backends(), self.history())
        &&& self@.inv()
        &&& self.open().len() == self@.open_slots()
        &&& self.waiting() is Some <==> self@.phase is Starting
    }

    #[verifier::type_invariant]
    closed spec fn kept(&self) -> bool {
        &&& self.scope.sound()
        &&& self.transactions@.len() == self.scope@.open_slots()
        &&& self.connection is Some <==> self.scope@.phase is Starting
    }

    /// A fresh scope over `backends` backends that holds nothing.
    pub fn new(backends: usize) -> (ledger: Ledger<C, T>)
        ensures
            ledger@ == ScopeState::init(backends as nat),
            ledger.history() == Seq::<Outcome>::empty(),
            ledger.waiting() is None,
            ledger.open() == Seq::<T>::empty(),
            ledger.sound(),
    {
        Ledger { scope: AtomicScope::new(backends), connection: None, transactions: Vec::new() }
    }

    /// The next step, with what it works on taken out of the ledger.
    pub fn duty(self) -> (duty: Duty<C, T>)
        ensures
            self.sound(),
            duty.taken_from(self),
    {
        proof {
            use_type_invariant(&self);
        }
        let Ledger { scope, connection, transactions } = self;
        let mut connection = connection;
        let mut transactions = transactions;
        match scope.pending() {
            Action::Connect(i) => Duty::Connect(i, Connecting { scope, connection, transactions }),
            Action::Begin(i) => match connection.take() {
                Some(c) => Duty::Begin(i, Starting { scope, connection, transactions }, c),
                None => vstd::pervasive::unreached(),
            },
            Action::Run => Duty::Run(
                Running { scope, connection, transactions: Vec::new() },
                transactions,
            ),
            Action::Commit(i) => {
                let ghost all = transactions@;
                let transaction = transactions.remove(0);
                assert(transactions@ =~= all.drop_first());
                Duty::Commit(i, Ending { scope, connection, transactions }, transaction)
            },
            Action::Abort(i) => {
                let ghost all = transactions@;
                match transactions.pop() {
                    Some(transaction) => {
                        assert(transactions@ =~= all.drop_last());
                        Duty::Abort(i, Ending { scope, connection, transactions }, transaction)
                    },
                    None => vstd::pervasive::unreached(),
                }
            },
            Action::Finish => Duty::Finish(Ledger { scope, connection, transactions }),
        }
    }

    /// Whether the scope has ended.
    pub fn is_finished(&self) -> (done: bool)
        ensures
            done == self@.finished(),
    {
        self.scope.is_finished()
    }

    /// Closes the ledger: the first failure of the scope, and the report.
    /// A scope that has ended holds nothing; of one that has not, what it
    /// holds is dropped.
    pub fn finish(self) -> (end: (Option<Failure>, Report))
        ensures
            end.0 == self@.failure,
            end.1.slots@ == self@.slots,
            end.1.journal@ == self@.journal,
            end.1.abort_failures@ == self@.abort_failures,
            self@.finished() ==> self.open().len() == 0 && self.waiting() is None,
    {
        proof {
            use_type_invariant(&self);
        }
        let Ledger { scope, connection, transactions } = self;
        let (slots, failure, abort_failures, journal) = scope.into_parts();
        (failure, Report { slots, journal, abort_failures })
    }
}

impl<C, T> Connecting<C, T> {
    /// The outcomes that the scope has taken, oldest first.
    pub closed spec fn history(&self) -> Seq<Outcome> {
        self.scope.history()
    }

    /// The transactions that are open, in opening order.
    pub closed spec fn open(&self) -> Seq<T> {
        self.transactions@
    }

    #[verifier::type_invariant]
    closed spec fn kept(&self) -> bool {
        &&& self.scope.sound()
        &&& self.scope@.phase is Connecting
        &&& self.transactions@.len() == self.scope@.open_slots()
        &&& self.connection is None
    }

    /// The driver has handed out `connection`: it now waits for its
    /// transaction to start.
    pub fn connected(self, connection: C) -> (ledger: Ledger<C, T>)
        ensures
            ledger@ == self@.next(Outcome::Done),
            ledger.history() == self.history().push(Outcome::Done),
            ledger.waiting() == Some(connection),
            ledger.open() == self.open(),
            ledger.sound(),
    {
        proof {
            use_type_invariant(&self);
        }
        let Connecting { scope, connection: _, transactions } = self;
        Ledger { scope: scope.advance(Outcome::Done), connection: Some(connection), transactions }
    }

    /// Takes what the driver returned: a connection waits from now on, and
    /// a failure is the failure of the step, with the driver's error as its
    /// cause.
    pub fn returned(self, returned: Result<C, DatabaseError>) -> (ledger: Ledger<C, T>)
        ensures
            ledger@ == self@.next(reported(returned)),
            ledger.history() == self.history().push(reported(returned)),
            returned matches Ok(connection) ==> ledger.waiting() == Some(connection),
            returned is Err ==> ledger.waiting() is None,
            ledger.open() == self.open(),
            ledger.sound(),
    {
        match returned {
            Ok(connection) => self.connected(connection),
            Err(e) => self.failed(Cause::Database(e)),
        }
    }

    /// The driver has handed out no connection.
    pub fn failed(self, cause: Cause) -> (ledger: Ledger<C, T>)
        ensures
            ledger@ == self@.next(Outcome::Failed(cause)),
            ledger.history() == self.history().push(Outcome::Failed(cause)),
            ledger.waiting() is None,
            ledger.open() == self.open(),
            ledger.sound(),
    {
        proof {
            use_type_invariant(&self);
        }
        let Connecting { scope, connection, transactions } = self;
        Ledger { scope: scope.advance(Outcome::Failed(cause)), connection, transactions }
    }
}

impl<C, T> Starting<C, T> {
    /// The outcomes that the scope has taken, oldest first.
    pub closed spec fn history(&self) -> Seq<Outcome> {
        self.scope.history()
    }

    /// The transactions that are open, in opening order.
    pub closed spec fn open(&self) -> Seq<T> {
        self.transactions@
    }

    #[verifier::type_invariant]
    closed spec fn kept(&self) -> bool {
        &&& self.scope.sound()
        &&& self.scope@.phase is Starting
        &&& self.transactions@.len() == self.scope@.open_slots()
        &&& self.connection is None
    }

    /// The transaction has started: it is now the last of the open ones.
    pub fn started(self, transaction: T) -> (ledger: Ledger<C, T>)
        ensures
            ledger@ == self@.next(Outcome::Done),
            ledger.history() == self.history().push(Outcome::Done),
            ledger.waiting() is None,
            ledger.open() == self.open().push(transaction),
            ledger.sound(),
    {
        proof {
            use_type_invariant(&self);
        }
        let Starting { scope, connection, transactions } = self;
        let mut transactions = transactions;
        transactions.push(transaction);
        Ledger { scope: scope.advance(Outcome::Done), connection, transactions }
    }

    /// Takes what the start of the transaction returned: the transaction
    /// is the last of the open ones from now on, and a failure is the
    /// failure of the step, with the backend's error as its cause.
    pub fn returned(self, returned: Result<T, DatabaseError>) -> (ledger: Ledger<C, T>)
        ensures
            ledger@ == self@.next(reported(returned)),
            ledger.history() == self.history().push(reported(returned)),
            ledger.waiting() is None,
            returned matches Ok(transaction) ==> ledger.open() == self.open().push(transaction),
            returned is Err ==> ledger.open() == self.open(),
            ledger.sound(),
    {
        match returned {
            Ok(transaction) => self.started(transaction),
            Err(e) => self.failed(Cause::Database(e)),
        }
    }

    /// The transaction has not started. The connection is spent.
    pub fn failed(self, cause: Cause) -> (ledger: Ledger<C, T>)
        ensures
            ledger@ == self@.next(Outcome::Failed(cause)),
            ledger.history() == self.history().push(Outcome::Failed(cause)),
            ledger.waiting() is None,
            ledger.open() == self.open(),
            ledger.sound(),
    {
        proof {
            use_type_invariant(&self);
        }
        let Starting { scope, connection, transactions } = self;
        Ledger { scope: scope.advance(Outcome::Failed(cause)), connection, transactions }
    }
}

impl<C, T> Running<C, T> {
    /// The outcomes that the scope has taken, oldest first.
    pub closed spec fn history(&self) -> Seq<Outcome> {
        self.scope.history()
    }

    #[verifier::type_invariant]
    closed spec fn kept(&self) -> bool {
        &&& self.scope.sound()
        &&& self.scope@.phase is Running
        &&& self.transactions@.len() == 0
        &&& self.connection is None
    }

    /// Whether the outcomes are those of a scope that is given up after its
    /// body: every step from the body on counts as cancelled.
    pub open spec fn given_up(more: Seq<Outcome>) -> bool {
        &&& more.len() > 0
        &&& forall|i: int|
            0 <= i < more.len() ==> #[trigger] more[i] == Outcome::Failed(Cause::Cancelled)
    }

    /// Takes the transactions back after the body, with the body's
    /// outcome. They are the open transactions from now on.
    ///
    /// The transactions are those that went out, one for each backend. If
    /// another number of them comes back, the scope no longer holds what it
    /// has opened and is given up: the body and every abort count as
    /// cancelled, the scope ends, and what came back is dropped.
    pub fn ran(self, transactions: Vec<T>, outcome: Outcome) -> (ledger: Ledger<C, T>)
        ensures
            ledger.sound(),
            ledger@.backends() == self@.backends(),
            ledger.waiting() is None,
            transactions@.len() == self@.backends() ==> {
                &&& ledger@ == self@.next(outcome)
                &&& ledger.history() == self.history().push(outcome)
                &&& ledger.open() == transactions@
            },
            transactions@.len() != self@.backends() ==> {
                &&& ledger@.finished()
                &&& ledger@.failure == Some(
                    Failure { step: Action::Run, cause: Cause::Cancelled },
                )
                &&& ledger.open().len() == 0
                &&& exists|more: Seq<Outcome>|
                    Self::given_up(more) && #[trigger] (self.history() + more) == ledger.history()
            },
    {
        proof {
            use_type_invariant(&self);
        }
        let ghost start = self.history();
        let ghost n = self@.backends();
        let Running { scope, connection, transactions: _ } = self;
        if transactions.len() == scope.backends() {
            return Ledger { scope: scope.advance(outcome), connection, transactions };
        }
        let ghost before = scope@;
        let cancelled = Outcome::Failed(Cause::Cancelled);
        let mut scope = scope.advance(cancelled);
        let ghost mut more: Seq<Outcome> = seq![cancelled];
        proof {
            lemma_next_rank(before, cancelled);
            assert(start + more =~= start.push(cancelled));
        }
        while !scope.is_finished()
            invariant
                scope.sound(),
                scope@.backends() == n,
                Self::given_up(more),
                start + more == scope.history(),
                scope@.failure == Some(Failure { step: Action::Run, cause: Cause::Cancelled }),
            decreases 4 * n + 1 - rank(scope@.pending(), n as int),
        {
            let ghost last = scope@;
            let step = Outcome::Failed(Cause::Cancelled);
            proof {
                lemma_next_rank(last, step);
                assert(start + more.push(step) =~= (start + more).push(step));
                more = more.push(step);
            }
            scope = scope.advance(step);
        }
        Ledger { scope, connection, transactions: Vec::new() }
    }
}

impl<C, T> Running<C, T> {
    /// Takes the transactions back with what the body returned, and hands
    /// that on: a value counts as done, an error as the body's failure.
    /// What [`Running::ran`] says of the transactions holds here.
    pub fn returned<V, E>(self, transactions: Vec<T>, returned: Result<V, E>) -> (end: (
        Ledger<C, T>,
        Result<V, E>,
    ))
        ensures
            end.1 == returned,
            end.0.sound(),
            end.0@.backends() == self@.backends(),
            end.0.waiting() is None,
            transactions@.len() == self@.backends() ==> {
                &&& end.0@ == self@.next(body_outcome(returned))
                &&& end.0.history() == self.history().push(body_outcome(returned))
                &&& end.0.open() == transactions@
            },
            transactions@.len() != self@.backends() ==> {
                &&& end.0@.finished()
                &&& end.0@.failure == Some(Failure { step: Action::Run, cause: Cause::Cancelled })
                &&& end.0.open().len() == 0
                &&& exists|more: Seq<Outcome>|
                    Self::given_up(more) && #[trigger] (self.history() + more) == end.0.history()
            },
    {
        let outcome = match &returned {
            Ok(_) => Outcome::Done,
            Err(_) => Outcome::Failed(Cause::Body),
        };
        (self.ran(transactions, outcome), returned)
    }
}

impl<C, T> Ending<C, T> {
    /// The outcomes that the scope has taken, oldest first.
    pub closed spec fn history(&self) -> Seq<Outcome> {
        self.scope.history()
    }

    /// The transactions that are still open, in opening order.
    pub closed spec fn open(&self) -> Seq<T> {
        self.transactions@
    }

    #[verifier::type_invariant]
    closed spec fn kept(&self) -> bool {
        &&& self.scope.sound()
        &&& self.scope@.phase is Committing || self.scope@.phase is Aborting
        &&& self.transactions@.len() + 1 == self.scope@.open_slots()
        &&& self.connection is None
    }

    /// Takes what the commit or abort returned: a failure is the failure
    /// of the step, with the backend's error as its cause.
    pub fn returned(self, returned: Result<(), DatabaseError>) -> (ledger: Ledger<C, T>)
        ensures
            ledger@ == self@.next(reported(returned)),
            ledger.history() == self.history().push(reported(returned)),
            ledger.waiting() is None,
            ledger.open() == self.open(),
            ledger.sound(),
    {
        match returned {
            Ok(()) => self.done(),
            Err(e) => self.failed(Cause::Database(e)),
        }
    }

    /// The commit or abort has succeeded.
    pub fn done(self) -> (ledger: Ledger<C, T>)
        ensures
            ledger@ == self@.next(Outcome::Done),
            ledger.history() == self.history().push(Outcome::Done),
            ledger.waiting() is None,
            ledger.open() == self.open(),
            ledger.sound(),
    {
        proof {
            use_type_invariant(&self);
        }
        let Ending { scope, connection, transactions } = self;
        Ledger { scope: scope.advance(Outcome::Done), connection, transactions }
    }

    /// The commit or abort has failed. The handle is spent.
    pub fn failed(self, cause: Cause) -> (ledger: Ledger<C, T>)
        ensures
            ledger@ == self@.next(Outcome::Failed(cause)),
            ledger.history() == self.history().push(Outcome::Failed(cause)),
            ledger.waiting() is None,
            ledger.open() == self.open(),
            ledger.sound(),
    {
        proof {
            use_type_invariant(&self);
        }
        let Ending { scope, connection, transactions } = self;
        Ledger { scope: scope.advance(Outcome::Failed(cause)), connection, transactions }
    }
}

/// The value that a duty hands out is that of the duty's backend. The open
/// transactions stand in opening order behind the backends that had a
/// commit tried: a commit gets the first of them, which is that of its
/// backend; an abort gets the last, which is that of its backend; and what
/// a `Begin` starts becomes the last.
pub proof fn law_handle_is_that_of_the_backend<C, T>(ledger: Ledger<C, T>, duty: Duty<C, T>)
    requires
        ledger.sound(),
        duty.taken_from(ledger),
    ensures
        duty matches Duty::Commit(i, _, _) ==> i == ledger@.commits_tried(),
        duty matches Duty::Abort(i, _, _) ==> i == ledger@.commits_tried() + ledger.open().len()
            - 1,
        duty matches Duty::Begin(i, _, _) ==> ledger@.commits_tried() == 0 && i
            == ledger.open().len(),
        duty matches Duty::Run(_, transactions) ==> ledger@.commits_tried() == 0
            && transactions@.len() == ledger@.backends(),
        duty is Finish ==> ledger.open().len() == 0 && ledger.waiting() is None,
{
}

} // verus!
