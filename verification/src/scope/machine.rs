//! The coordinator as a value: ask it for the next step, perform the step,
//! hand back how it ended.

use crate::scope::model::{Action, Cause, Failure, Outcome, Phase, ScopeState, Slot};
use crate::scope::reach::lemma_run_inv;
use vstd::prelude::*;

verus! {

/// One atomic scope over an ordered list of backends.
///
/// A scope is made with [`AtomicScope::new`] and moved on with
/// [`AtomicScope::advance`], so every scope is in a state that a fresh scope
/// reaches by some sequence of outcomes: [`AtomicScope::history`].
pub struct AtomicScope {
    slots: Vec<Slot>,
    phase: Phase,
    failure: Option<Failure>,
    abort_failures: Vec<(usize, Cause)>,
    journal: Vec<Action>,
    history: Ghost<Seq<Outcome>>,
}

impl View for AtomicScope {
    type V = ScopeState;

    closed spec fn view(&self) -> ScopeState {
        ScopeState {
            slots: self.slots@,
            phase: self.phase,
            failure: self.failure,
            abort_failures: self.abort_failures@,
            journal: self.journal@,
        }
    }
}

impl AtomicScope {
    /// The outcomes that were handed to this scope, oldest first.
    pub closed spec fn history(&self) -> Seq<Outcome> {
        self.history@
    }

    /// What holds of every scope: its state is the one that a fresh scope
    /// reaches by its history, and so meets the coordinator's invariant.
    pub open spec fn sound(&self) -> bool {
        &&& self@ == ScopeState::run(self@.backends(), self.history())
        &&& self@.inv()
    }

    #[verifier::type_invariant]
    closed spec fn reached(&self) -> bool {
        &&& self.slots@.len() <= usize::MAX
        &&& self@ == ScopeState::run(self.slots@.len(), self.history@)
    }

    /// A fresh scope over `backends` backends, numbered in the order in
    /// which the caller declares them.
    pub fn new(backends: usize) -> (scope: AtomicScope)
        ensures
            scope@ == ScopeState::init(backends as nat),
            scope.history() == Seq::<Outcome>::empty(),
            scope.sound(),
    {
        let mut slots: Vec<Slot> = Vec::new();
        let mut i: usize = 0;
        while i < backends
            invariant
                i <= backends,
                slots@ == Seq::new(i as nat, |k: int| Slot::Idle),
            decreases backends - i,
        {
            slots.push(Slot::Idle);
            assert(slots@ =~= Seq::new((i + 1) as nat, |k: int| Slot::Idle));
            i = i + 1;
        }
        let phase = if backends == 0 {
            Phase::Running
        } else {
            Phase::Connecting(0)
        };
        proof {
            lemma_run_inv(backends as nat, Seq::empty());
        }
        AtomicScope {
            slots,
            phase,
            failure: None,
            abort_failures: Vec::new(),
            journal: Vec::new(),
            history: Ghost(Seq::empty()),
        }
    }

    /// The number of backends.
    pub fn backends(&self) -> (n: usize)
        ensures
            n == self@.backends(),
            self.sound(),
    {
        proof {
            use_type_invariant(self);
            lemma_run_inv(self.slots@.len(), self.history@);
        }
        self.slots.len()
    }

    /// The step to perform now.
    pub fn pending(&self) -> (action: Action)
        ensures
            action == self@.pending(),
            self.sound(),
    {
        proof {
            use_type_invariant(self);
            lemma_run_inv(self.slots@.len(), self.history@);
        }
        match self.phase {
            Phase::Connecting(i) => Action::Connect(i),
            Phase::Starting(i) => Action::Begin(i),
            Phase::Running => Action::Run,
            Phase::Committing(i) => Action::Commit(i),
            Phase::Aborting { upto, floor } => Action::Abort(upto - 1),
            Phase::Finished => Action::Finish,
        }
    }

    /// Whether the scope has ended.
    pub fn is_finished(&self) -> (done: bool)
        ensures
            done == self@.finished(),
    {
        match self.phase {
            Phase::Finished => true,
            _ => false,
        }
    }

    /// Takes the outcome of the pending step and moves on. What to do next
    /// is the new scope's [`AtomicScope::pending`].
    pub fn advance(self, outcome: Outcome) -> (scope: AtomicScope)
        ensures
            scope@ == self@.next(outcome),
            scope.history() == self.history().push(outcome),
            scope.sound(),
    {
        proof {
            use_type_invariant(&self);
            lemma_run_inv(self.slots@.len(), self.history@);
        }
        let ghost before = self@;
        let ghost trail = self.history@.push(outcome);
        proof {
            assert(trail.drop_last() =~= self.history@);
            assert(trail.last() == outcome);
            lemma_run_inv(self.slots@.len(), trail);
        }
        let step = self.pending();
        let AtomicScope { slots, phase, failure, abort_failures, journal, history } = self;
        let mut slots = slots;
        let mut abort_failures = abort_failures;
        let mut journal = journal;
        let n = slots.len();
        match phase {
            Phase::Finished => AtomicScope {
                slots,
                phase,
                failure,
                abort_failures,
                journal,
                history: Ghost(trail),
            },
            Phase::Connecting(i) => {
                journal.push(step);
                match outcome {
                    Outcome::Done => {
                        slots.set(i, Slot::Connected);
                        AtomicScope {
                            slots,
                            phase: Phase::Starting(i),
                            failure,
                            abort_failures,
                            journal,
                            history: Ghost(trail),
                        }
                    },
                    Outcome::Failed(cause) => AtomicScope {
                        slots,
                        phase: unwind_from(i, 0),
                        failure: Some(Failure { step: Action::Connect(i), cause }),
                        abort_failures,
                        journal,
                        history: Ghost(trail),
                    },
                }
            },
            Phase::Starting(i) => {
                journal.push(step);
                match outcome {
                    Outcome::Done => {
                        slots.set(i, Slot::Open);
                        let phase = if i + 1 < n {
                            Phase::Connecting(i + 1)
                        } else {
                            Phase::Running
                        };
                        AtomicScope {
                            slots,
                            phase,
                            failure,
                            abort_failures,
                            journal,
                            history: Ghost(trail),
                        }
                    },
                    Outcome::Failed(cause) => {
                        slots.set(i, Slot::Idle);
                        AtomicScope {
                            slots,
                            phase: unwind_from(i, 0),
                            failure: Some(Failure { step: Action::Begin(i), cause }),
                            abort_failures,
                            journal,
                            history: Ghost(trail),
                        }
                    },
                }
            },
            Phase::Running => {
                journal.push(step);
                match outcome {
                    Outcome::Done => {
                        let phase = if n == 0 {
                            Phase::Finished
                        } else {
                            Phase::Committing(0)
                        };
                        AtomicScope {
                            slots,
                            phase,
                            failure,
                            abort_failures,
                            journal,
                            history: Ghost(trail),
                        }
                    },
                    Outcome::Failed(cause) => AtomicScope {
                        slots,
                        phase: unwind_from(n, 0),
                        failure: Some(Failure { step: Action::Run, cause }),
                        abort_failures,
                        journal,
                        history: Ghost(trail),
                    },
                }
            },
            Phase::Committing(i) => {
                journal.push(step);
                match outcome {
                    Outcome::Done => {
                        slots.set(i, Slot::Committed);
                        let phase = if i + 1 < n {
                            Phase::Committing(i + 1)
                        } else {
                            Phase::Finished
                        };
                        AtomicScope {
                            slots,
                            phase,
                            failure,
                            abort_failures,
                            journal,
                            history: Ghost(trail),
                        }
                    },
                    Outcome::Failed(cause) => {
                        slots.set(i, Slot::CommitFailed);
                        AtomicScope {
                            slots,
                            phase: unwind_from(n, i + 1),
                            failure: Some(Failure { step: Action::Commit(i), cause }),
                            abort_failures,
                            journal,
                            history: Ghost(trail),
                        }
                    },
                }
            },
            Phase::Aborting { upto, floor } => {
                journal.push(step);
                let j = upto - 1;
                match outcome {
                    Outcome::Done => {
                        slots.set(j, Slot::Aborted);
                    },
                    Outcome::Failed(cause) => {
                        slots.set(j, Slot::AbortFailed);
                        abort_failures.push((j, cause));
                    },
                }
                AtomicScope {
                    slots,
                    phase: unwind_from(j, floor),
                    failure,
                    abort_failures,
                    journal,
                    history: Ghost(trail),
                }
            },
        }
    }

    /// Takes the scope apart: the slots, the first failure, the failed
    /// aborts and the journal.
    pub fn into_parts(self) -> (parts: (
        Vec<Slot>,
        Option<Failure>,
        Vec<(usize, Cause)>,
        Vec<Action>,
    ))
        ensures
            parts.0@ == self@.slots,
            parts.1 == self@.failure,
            parts.2@ == self@.abort_failures,
            parts.3@ == self@.journal,
    {
        let AtomicScope { slots, phase, failure, abort_failures, journal, history } = self;
        (slots, failure, abort_failures, journal)
    }

    /// The first failure, if a step has failed.
    pub fn failure(&self) -> (f: &Option<Failure>)
        ensures
            *f == self@.failure,
    {
        &self.failure
    }

    /// What the scope holds of the backend, or `None` where the scope has
    /// no such backend.
    pub fn slot(&self, backend: usize) -> (slot: Option<Slot>)
        ensures
            backend < self@.backends() ==> slot == Some(self@.slots[backend as int]),
            backend >= self@.backends() ==> slot is None,
    {
        if backend < self.slots.len() {
            Some(self.slots[backend])
        } else {
            None
        }
    }

    /// Every step tried so far, oldest first.
    pub fn journal(&self) -> (steps: &Vec<Action>)
        ensures
            steps@ == self@.journal,
    {
        &self.journal
    }

    /// The aborts that failed while the scope unwound, each with the
    /// backend's number. They never take the place of the first failure.
    pub fn abort_failures(&self) -> (failed: &Vec<(usize, Cause)>)
        ensures
            failed@ == self@.abort_failures,
    {
        &self.abort_failures
    }
}

/// The phase that aborts the open transactions `floor..upto`, last opened
/// first.
fn unwind_from(upto: usize, floor: usize) -> (phase: Phase)
    ensures
        phase == crate::scope::model::unwind(upto, floor),
{
    if upto > floor {
        Phase::Aborting { upto, floor }
    } else {
        Phase::Finished
    }
}

} // verus!
