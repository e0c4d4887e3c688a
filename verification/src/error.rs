//! Failure and error types of the harness.
//!
//! A `WorkflowFailure` is a successfully observed outcome of a workflow that
//! was configured to fail: it is not an error of the harness itself. Harness
//! misbehaviour is reported as `TestHarnessError`, and result inspection
//! problems as `WorkflowResultError`.

use vstd::prelude::*;
use crate::payload::Payloads;

verus! {

/// Mathematical model of a captured workflow failure.
#[verifier::ext_equal]
pub struct WorkflowFailureView {
    /// The failure message.
    pub message: Seq<char>,
    /// The structured failure detail's message, if one was captured.
    pub failure: Option<Seq<char>>,
    /// Whether the failure was observed at the task level rather than as an
    /// explicit fail-workflow command.
    pub is_wft_failure: bool,
}

/// Structured detail of a failure, as an engine reports it.
#[derive(Debug)]
pub struct FailureDetail {
    /// The failure message.
    pub message: String,
}

impl View for FailureDetail {
    type V = Seq<char>;

    open spec fn view(&self) -> Seq<char> {
        self.message@
    }
}

impl Clone for FailureDetail {
    fn clone(&self) -> (r: Self)
        ensures
            r@ == self@,
    {
        FailureDetail { message: self.message.clone() }
    }
}

/// Describes a workflow failure captured from the execution loop.
#[derive(Debug)]
pub struct WorkflowFailure {
    /// Human-readable failure message.
    pub message: String,
    /// The structured failure detail, if one was captured.
    pub failure: Option<FailureDetail>,
    /// `true` when the failure was observed at the task level (an activity
    /// error propagated out of workflow logic) rather than as an explicit
    /// fail-workflow command.
    pub is_wft_failure: bool,
}

impl View for WorkflowFailure {
    type V = WorkflowFailureView;

    open spec fn view(&self) -> WorkflowFailureView {
        WorkflowFailureView {
            message: self.message@,
            failure: match self.failure {
                Some(d) => Some(d@),
                None => None,
            },
            is_wft_failure: self.is_wft_failure,
        }
    }
}

impl Clone for WorkflowFailure {
    fn clone(&self) -> (r: Self)
        ensures
            r@ == self@,
    {
        WorkflowFailure {
            message: self.message.clone(),
            failure: match &self.failure {
                Some(d) => Some(d.clone()),
                None => None,
            },
            is_wft_failure: self.is_wft_failure,
        }
    }
}

impl WorkflowFailure {
    /// Render the failure for display.
    pub fn describe(&self) -> (r: String)
        ensures
            r@ == "WorkflowFailure: "@ + self.message@,
    {
        let mut s = String::from_str("WorkflowFailure: ");
        s.append(self.message.as_str());
        s
    }
}

/// The outcome of running a workflow in the test harness.
///
/// `Ok(Some(payloads))` — the workflow completed with a result payload.
/// `Ok(None)` — the workflow completed with no result.
/// `Err(failure)` — the workflow failed, by an explicit fail-workflow command
/// or by a task-level failure.
pub type WorkflowTestResult = Result<Option<Payloads>, WorkflowFailure>;

/// Mathematical model of a [`WorkflowTestResult`].
pub type WorkflowTestResultView = Result<Option<Seq<Seq<u8>>>, WorkflowFailureView>;

/// The view of a [`WorkflowTestResult`].
pub open spec fn test_result_view(r: WorkflowTestResult) -> WorkflowTestResultView {
    match r {
        Ok(None) => Ok(None),
        Ok(Some(p)) => Ok(Some(p@)),
        Err(f) => Err(f@),
    }
}

/// Harness-level errors: the harness mechanism itself misbehaved, as opposed
/// to the workflow under test failing.
#[derive(Debug)]
pub enum TestHarnessError {
    /// The race ended (by timeout or by the execution loop finishing) with no
    /// terminal outcome captured.
    NoResult,
    /// The execution loop itself returned an unexpected error.
    WorkerError(String),
}

impl TestHarnessError {
    /// Render the error for display.
    pub fn describe(&self) -> (r: String)
        ensures
            match self {
                TestHarnessError::NoResult => r@ == "workflow produced no result (neither completion nor failure was captured)"@,
                TestHarnessError::WorkerError(d) => r@ == "worker returned an error: "@ + d@,
            },
    {
        match self {
            TestHarnessError::NoResult => {
                String::from_str("workflow produced no result (neither completion nor failure was captured)")
            },
            TestHarnessError::WorkerError(detail) => {
                let mut s = String::from_str("worker returned an error: ");
                s.append(detail.as_str());
                s
            },
        }
    }
}

/// Errors returned when the stored workflow result is inspected.
#[derive(Debug)]
pub enum WorkflowResultError {
    /// The workflow has not been executed yet.
    NotExecuted,
    /// The workflow terminated with a failure; carries the captured failure.
    WorkflowFailed(WorkflowFailure),
    /// The workflow completed but produced no result payload.
    NoResult,
    /// A result payload is present but does not decode as the requested type.
    DeserializeError(String),
}

} // verus!
