//! An in-process test harness for replay-style workflow testing.
//!
//! Given a workflow name and an ordered list of mocked activity outcomes, the
//! harness synthesizes the event history a real orchestration engine would
//! produce, and captures the single terminal outcome (a success payload or a
//! failure) that the engine's execution loop reports back through callbacks.
//! The crate also carries the money-transfer example the harness is exercised
//! on: its activities and the banking service they call.

pub mod activity;
pub mod banking;
pub mod capture;
pub mod error;
pub mod history;
pub mod laws;
pub mod payload;
pub mod runner;
pub mod shared;
pub mod workflow;

pub use error::TestHarnessError;
pub use error::WorkflowFailure;
pub use error::WorkflowResultError;
pub use runner::TestWorkflowEnvironment;
