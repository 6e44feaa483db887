use hextacy::error::{DatabaseError, DriverError};
use hextacy::scope::machine::AtomicScope;
use hextacy::scope::model::{Action, Cause, Failure, Outcome, Slot};

#[test]
fn fresh_scope_asks_for_the_first_connection() {
    let scope = AtomicScope::new(2);
    assert_eq!(scope.backends(), 2);
    assert_eq!(scope.pending(), Action::Connect(0));
    assert!(!scope.is_finished());
    assert_eq!(scope.slot(0), Some(Slot::Idle));
    assert_eq!(scope.slot(2), None);
    assert!(scope.journal().is_empty());
}

#[test]
fn body_success_commits_in_declaration_order() {
    let mut scope = AtomicScope::new(2);
    for _ in 0..7 {
        scope = scope.advance(Outcome::Done);
    }
    assert!(scope.is_finished());
    assert_eq!(scope.pending(), Action::Finish);
    assert_eq!(*scope.failure(), None);
    assert_eq!(scope.slot(0), Some(Slot::Committed));
    assert_eq!(scope.slot(1), Some(Slot::Committed));
    assert_eq!(
        *scope.journal(),
        vec![
            Action::Connect(0),
            Action::Begin(0),
            Action::Connect(1),
            Action::Begin(1),
            Action::Run,
            Action::Commit(0),
            Action::Commit(1),
        ]
    );
}

#[test]
fn body_failure_aborts_in_reverse_order() {
    let mut scope = AtomicScope::new(2);
    for _ in 0..4 {
        scope = scope.advance(Outcome::Done);
    }
    assert_eq!(scope.pending(), Action::Run);
    scope = scope.advance(Outcome::Failed(Cause::Body));
    assert_eq!(scope.pending(), Action::Abort(1));
    scope = scope.advance(Outcome::Done);
    assert_eq!(scope.pending(), Action::Abort(0));
    scope = scope.advance(Outcome::Done);
    assert!(scope.is_finished());
    assert_eq!(
        *scope.failure(),
        Some(Failure { step: Action::Run, cause: Cause::Body })
    );
    assert_eq!(scope.slot(0), Some(Slot::Aborted));
    assert_eq!(scope.slot(1), Some(Slot::Aborted));
}

#[test]
fn pool_exhaustion_on_second_backend_aborts_the_first() {
    let mut scope = AtomicScope::new(2);
    scope = scope.advance(Outcome::Done);
    scope = scope.advance(Outcome::Done);
    let cause = Cause::Database(DatabaseError::Driver(DriverError::PoolExhausted));
    scope = scope.advance(Outcome::Failed(cause.clone()));
    assert_eq!(scope.pending(), Action::Abort(0));
    scope = scope.advance(Outcome::Done);
    assert!(scope.is_finished());
    assert_eq!(
        *scope.failure(),
        Some(Failure { step: Action::Connect(1), cause })
    );
    assert_eq!(scope.slot(0), Some(Slot::Aborted));
    assert_eq!(scope.slot(1), Some(Slot::Idle));
}

#[test]
fn cancelled_body_aborts_every_open_transaction() {
    let mut scope = AtomicScope::new(3);
    for _ in 0..6 {
        scope = scope.advance(Outcome::Done);
    }
    assert_eq!(scope.pending(), Action::Run);
    scope = scope.advance(Outcome::Failed(Cause::Cancelled));
    let mut aborted = vec![];
    while !scope.is_finished() {
        match scope.pending() {
            Action::Abort(i) => aborted.push(i),
            other => panic!("unexpected step {:?}", other),
        }
        scope = scope.advance(Outcome::Done);
    }
    assert_eq!(aborted, vec![2, 1, 0]);
    for i in 0..3 {
        assert_eq!(scope.slot(i), Some(Slot::Aborted));
    }
    assert_eq!(
        *scope.failure(),
        Some(Failure { step: Action::Run, cause: Cause::Cancelled })
    );
}

#[test]
fn failed_abort_does_not_replace_the_first_failure() {
    let mut scope = AtomicScope::new(2);
    for _ in 0..4 {
        scope = scope.advance(Outcome::Done);
    }
    scope = scope.advance(Outcome::Failed(Cause::Body));
    let lost = Cause::Database(DatabaseError::Backend("connection lost".to_string()));
    scope = scope.advance(Outcome::Failed(lost.clone()));
    scope = scope.advance(Outcome::Done);
    assert!(scope.is_finished());
    assert_eq!(
        *scope.failure(),
        Some(Failure { step: Action::Run, cause: Cause::Body })
    );
    assert_eq!(*scope.abort_failures(), vec![(1, lost)]);
    assert_eq!(scope.slot(1), Some(Slot::AbortFailed));
    assert_eq!(scope.slot(0), Some(Slot::Aborted));
}

#[test]
fn commit_failure_aborts_only_the_later_backends() {
    let mut scope = AtomicScope::new(3);
    for _ in 0..7 {
        scope = scope.advance(Outcome::Done);
    }
    assert_eq!(scope.pending(), Action::Commit(0));
    scope = scope.advance(Outcome::Done);
    let cause = Cause::Database(DatabaseError::Backend("disk full".to_string()));
    scope = scope.advance(Outcome::Failed(cause.clone()));
    assert_eq!(scope.pending(), Action::Abort(2));
    scope = scope.advance(Outcome::Done);
    assert!(scope.is_finished());
    assert_eq!(scope.slot(0), Some(Slot::Committed));
    assert_eq!(scope.slot(1), Some(Slot::CommitFailed));
    assert_eq!(scope.slot(2), Some(Slot::Aborted));
    assert_eq!(
        *scope.failure(),
        Some(Failure { step: Action::Commit(1), cause })
    );
}

#[test]
fn empty_scope_runs_the_body_and_ends() {
    let scope = AtomicScope::new(0);
    assert_eq!(scope.pending(), Action::Run);
    let ok = scope.advance(Outcome::Done);
    assert!(ok.is_finished());
    assert_eq!(*ok.failure(), None);
    assert_eq!(*ok.journal(), vec![Action::Run]);

    let failed = AtomicScope::new(0).advance(Outcome::Failed(Cause::Body));
    assert!(failed.is_finished());
    assert_eq!(
        *failed.failure(),
        Some(Failure { step: Action::Run, cause: Cause::Body })
    );
}

#[test]
fn finished_scope_ignores_further_outcomes() {
    let mut scope = AtomicScope::new(1);
    for _ in 0..4 {
        scope = scope.advance(Outcome::Done);
    }
    assert!(scope.is_finished());
    let journal = scope.journal().clone();
    scope = scope.advance(Outcome::Failed(Cause::Cancelled));
    assert!(scope.is_finished());
    assert_eq!(*scope.failure(), None);
    assert_eq!(*scope.journal(), journal);
}

#[test]
fn every_scope_ends_within_the_step_bound() {
    // whatever the outcomes: try all patterns of success and failure
    for n in 0..4usize {
        let bound = 4 * n + 1;
        for pattern in 0..(1u32 << bound) {
            let mut scope = AtomicScope::new(n);
            let mut steps = 0;
            while !scope.is_finished() {
                let outcome = if pattern & (1 << steps) == 0 {
                    Outcome::Done
                } else {
                    Outcome::Failed(Cause::Cancelled)
                };
                scope = scope.advance(outcome);
                steps += 1;
                assert!(steps <= bound);
            }
            for i in 0..n {
                let slot = scope.slot(i).unwrap();
                assert!(slot != Slot::Open && slot != Slot::Connected);
            }
        }
    }
}
