//! The atomic transaction coordinator.
//!
//! A scope runs one operation against an ordered list of backends so that
//! each backend's transaction is either committed or aborted, never left
//! open. Atomicity is per backend: once a commit has succeeded it stays,
//! also where a later commit fails. Nothing is done twice to make up for a
//! failure.
//!
//! [`model`] is the coordinator as a transition system, [`reach`] what holds
//! of every state it reaches, and [`laws`] what that means for a run.
//! [`machine::AtomicScope`] is the coordinator as a value that says which
//! step comes next and takes that step's outcome. [`ledger::Ledger`] adds
//! the custody of connections and transaction handles: it hands out each
//! step with the value that the step works on and with a token that takes
//! the report, so that whoever performs the steps never picks a handle.
//! [`runner::atomic`] performs the steps in place for backends that are
//! called directly.

pub mod laws;
pub mod ledger;
pub mod machine;
pub mod model;
pub mod reach;
pub mod runner;
