//! The coordinator as a transition system over plain values.

use crate::error::DatabaseError;
use vstd::prelude::*;

verus! {

/// One step that the coordinator asks for. The number is the backend's
/// position in the order in which the scope declares its backends.
#[derive(Debug, Clone, Copy, PartialEq, Eq, Structural)]
pub enum Action {
    /// Obtain a connection from the backend's driver.
    Connect(usize),
    /// Start a transaction on the connection just obtained.
    Begin(usize),
    /// Run the operation body against the open transactions.
    Run,
    /// Commit the backend's transaction.
    Commit(usize),
    /// Abort the backend's transaction.
    Abort(usize),
    /// Nothing is left to do: report the verdict.
    Finish,
}

/// Why a step did not succeed.
#[derive(Debug, Clone, PartialEq, Eq)]
pub enum Cause {
    /// The backend reported a failure.
    Database(DatabaseError),
    /// The operation body returned its own error, which the caller keeps.
    Body,
    /// The step was cancelled or ran out of time before it returned.
    Cancelled,
}

/// How the step that the coordinator asked for ended.
#[derive(Debug, Clone, PartialEq, Eq)]
pub enum Outcome {
    Done,
    Failed(Cause),
}

/// The first failure of a scope: the step that failed, and why.
#[derive(Debug, Clone, PartialEq, Eq)]
pub struct Failure {
    pub step: Action,
    pub cause: Cause,
}

impl Failure {
    /// How many backends were committed before the failure: those before
    /// the one whose commit failed, and none where the failure came before
    /// any commit.
    pub open spec fn committed_before(self) -> nat {
        match self.step {
            Action::Commit(k) => k as nat,
            _ => 0,
        }
    }

    /// How many backends stay committed although the scope failed. More
    /// than none means that the scope succeeded in part.
    pub fn committed(&self) -> (n: usize)
        ensures
            n == self.committed_before(),
    {
        match self.step {
            Action::Commit(k) => k,
            _ => 0,
        }
    }
}

/// What a scope holds of one backend.
#[derive(Debug, Clone, Copy, PartialEq, Eq, Structural)]
pub enum Slot {
    /// Nothing: no connection, no transaction.
    Idle,
    /// A connection, with no transaction on it yet.
    Connected,
    /// A transaction in flight.
    Open,
    /// The transaction was committed.
    Committed,
    /// The commit was attempted and failed; the handle is spent.
    CommitFailed,
    /// The transaction was aborted.
    Aborted,
    /// The abort was attempted and failed; the handle is spent.
    AbortFailed,
}

impl Slot {
    /// An abort was attempted on the backend's transaction.
    pub open spec fn abort_tried(self) -> bool {
        self is Aborted || self is AbortFailed
    }

    /// The backend holds a connection or a transaction that nothing has
    /// ended yet.
    pub open spec fn held(self) -> bool {
        self is Connected || self is Open
    }
}

/// Where a scope stands.
#[derive(Debug, Clone, Copy, PartialEq, Eq, Structural)]
pub enum Phase {
    /// Waiting for the connection of this backend.
    Connecting(usize),
    /// Waiting for the transaction of this backend to start.
    Starting(usize),
    /// Waiting for the operation body.
    Running,
    /// Waiting for the commit of this backend.
    Committing(usize),
    /// Unwinding after a failure: the transactions of the backends from
    /// `floor` up to, not including, `upto` are still open, and the one of
    /// backend `upto - 1` is being aborted.
    Aborting { upto: usize, floor: usize },
    /// Done.
    Finished,
}

/// The state of a scope.
pub struct ScopeState {
    /// One entry per backend, in declaration order.
    pub slots: Seq<Slot>,
    pub phase: Phase,
    /// The first failure, if any step has failed.
    pub failure: Option<Failure>,
    /// The aborts that failed during unwinding, in the order they were tried.
    pub abort_failures: Seq<(usize, Cause)>,
    /// Every step tried so far, in order, whether it succeeded or not.
    pub journal: Seq<Action>,
}

/// The phase that unwinds the open transactions `floor..upto`, last opened
/// first, or `Finished` when there is none.
pub open spec fn unwind(upto: usize, floor: usize) -> Phase {
    if upto > floor {
        Phase::Aborting { upto, floor }
    } else {
        Phase::Finished
    }
}

impl ScopeState {
    /// The number of backends.
    pub open spec fn backends(self) -> nat {
        self.slots.len()
    }

    /// A fresh scope over `n` backends.
    pub open spec fn init(n: nat) -> ScopeState {
        ScopeState {
            slots: Seq::new(n, |i: int| Slot::Idle),
            phase: if n == 0 {
                Phase::Running
            } else {
                Phase::Connecting(0)
            },
            failure: None,
            abort_failures: Seq::empty(),
            journal: Seq::empty(),
        }
    }

    /// The step that the scope is waiting for.
    pub open spec fn pending(self) -> Action {
        match self.phase {
            Phase::Connecting(i) => Action::Connect(i),
            Phase::Starting(i) => Action::Begin(i),
            Phase::Running => Action::Run,
            Phase::Committing(i) => Action::Commit(i),
            Phase::Aborting { upto, floor } => Action::Abort((upto - 1) as usize),
            Phase::Finished => Action::Finish,
        }
    }

    pub open spec fn finished(self) -> bool {
        self.phase is Finished
    }

    /// The state after the pending step ended with `outcome`. A finished
    /// scope stays as it is.
    pub open spec fn next(self, outcome: Outcome) -> ScopeState {
        let n = self.slots.len();
        let journal = self.journal.push(self.pending());
        match self.phase {
            Phase::Connecting(i) => match outcome {
                Outcome::Done => ScopeState {
                    slots: self.slots.update(i as int, Slot::Connected),
                    phase: Phase::Starting(i),
                    journal,
                    ..self
                },
                Outcome::Failed(cause) => ScopeState {
                    phase: unwind(i, 0),
                    failure: Some(Failure { step: Action::Connect(i), cause }),
                    journal,
                    ..self
                },
            },
            Phase::Starting(i) => match outcome {
                Outcome::Done => ScopeState {
                    slots: self.slots.update(i as int, Slot::Open),
                    phase: if i + 1 < n {
                        Phase::Connecting((i + 1) as usize)
                    } else {
                        Phase::Running
                    },
                    journal,
                    ..self
                },
                Outcome::Failed(cause) => ScopeState {
                    slots: self.slots.update(i as int, Slot::Idle),
                    phase: unwind(i, 0),
                    failure: Some(Failure { step: Action::Begin(i), cause }),
                    journal,
                    ..self
                },
            },
            Phase::Running => match outcome {
                Outcome::Done => ScopeState {
                    phase: if n == 0 {
                        Phase::Finished
                    } else {
                        Phase::Committing(0)
                    },
                    journal,
                    ..self
                },
                Outcome::Failed(cause) => ScopeState {
                    phase: unwind(n as usize, 0),
                    failure: Some(Failure { step: Action::Run, cause }),
                    journal,
                    ..self
                },
            },
            Phase::Committing(i) => match outcome {
                Outcome::Done => ScopeState {
                    slots: self.slots.update(i as int, Slot::Committed),
                    phase: if i + 1 < n {
                        Phase::Committing((i + 1) as usize)
                    } else {
                        Phase::Finished
                    },
                    journal,
                    ..self
                },
                Outcome::Failed(cause) => ScopeState {
                    slots: self.slots.update(i as int, Slot::CommitFailed),
                    phase: unwind(n as usize, (i + 1) as usize),
                    failure: Some(Failure { step: Action::Commit(i), cause }),
                    journal,
                    ..self
                },
            },
            Phase::Aborting { upto, floor } => {
                let j = (upto - 1) as usize;
                match outcome {
                    Outcome::Done => ScopeState {
                        slots: self.slots.update(j as int, Slot::Aborted),
                        phase: unwind(j, floor),
                        journal,
                        ..self
                    },
                    Outcome::Failed(cause) => ScopeState {
                        slots: self.slots.update(j as int, Slot::AbortFailed),
                        phase: unwind(j, floor),
                        abort_failures: self.abort_failures.push((j, cause)),
                        journal,
                        ..self
                    },
                }
            },
            Phase::Finished => self,
        }
    }

    /// The state that a fresh scope over `n` backends reaches when its steps
    /// end with `outcomes`, one after the other.
    pub open spec fn run(n: nat, outcomes: Seq<Outcome>) -> ScopeState
        decreases outcomes.len(),
    {
        if outcomes.len() == 0 {
            ScopeState::init(n)
        } else {
            ScopeState::run(n, outcomes.drop_last()).next(outcomes.last())
        }
    }

    /// Whether the journal holds the step.
    pub open spec fn tried(self, action: Action) -> bool {
        self.journal.contains(action)
    }

    /// Whether the journal holds `first` at an earlier place than `second`.
    pub open spec fn tried_before(self, first: Action, second: Action) -> bool {
        exists|p: int, q: int|
            0 <= p < q < self.journal.len() && self.journal[p] == first && self.journal[q]
                == second
    }
}

} // verus!
