//! The test environment: registration, execution, and result inspection.
//!
//! `execute_workflow` drives one workflow execution against the synthetic
//! history. The engine's execution loop runs outside the harness; what the
//! harness sees of it is the ordered sequence of engine events — command
//! batches handed to the completion interceptor, task-level failures handed
//! to the task-failure interceptor, and the loop's own exit. The race of
//! {execution loop, capture signal, timeout} resolves at the first terminal
//! capture or loop exit; an exhausted event sequence is a timeout.

use vstd::prelude::*;
use crate::activity::Activities;
use crate::capture::{
    CapturedResult, CapturedResultView, ObservedCommand, capture_terminal, commands_view,
    empty_capture, record_batch, record_task_failure,
};
use crate::error::{
    FailureDetail, TestHarnessError, WorkflowFailure, WorkflowResultError, WorkflowTestResult,
    WorkflowTestResultView, test_result_view,
};
use crate::history::{
    ActivityMock, ActivityMockView, SyntheticHistory, build_history, mocks_view, spec_has_failure,
    spec_history,
};
use crate::payload::{Payload, Payloads, json_decode_string, json_parsed_string};

verus! {

/// One event the execution loop reports to the harness, in the order the
/// loop produced them.
#[derive(Debug)]
pub enum EngineEvent {
    /// The completion interceptor was invoked with one batch of commands.
    CommandBatch(Vec<ObservedCommand>),
    /// The engine surfaced a task-level failure.
    TaskFailure(Option<FailureDetail>),
    /// The execution loop returned: with an error message, or cleanly.
    WorkerExit(Option<String>),
}

/// Mathematical model of an [`EngineEvent`].
#[verifier::ext_equal]
pub enum EngineEventView {
    /// A batch of observed commands.
    CommandBatch(Seq<crate::capture::ObservedCommandView>),
    /// A task-level failure.
    TaskFailure(Option<Seq<char>>),
    /// The execution loop returned.
    WorkerExit(Option<Seq<char>>),
}

impl View for EngineEvent {
    type V = EngineEventView;

    open spec fn view(&self) -> EngineEventView {
        match self {
            EngineEvent::CommandBatch(cmds) => EngineEventView::CommandBatch(commands_view(cmds@)),
            EngineEvent::TaskFailure(f) => EngineEventView::TaskFailure(
                match f {
                    Some(d) => Some(d@),
                    None => None,
                },
            ),
            EngineEvent::WorkerExit(e) => EngineEventView::WorkerExit(
                match e {
                    Some(m) => Some(m@),
                    None => None,
                },
            ),
        }
    }
}

/// The view of an engine event sequence.
pub open spec fn events_view(v: Seq<EngineEvent>) -> Seq<EngineEventView> {
    v.map_values(|e: EngineEvent| e@)
}

/// How the race of {execution loop, capture signal, timeout} ends.
#[verifier::ext_equal]
pub enum RaceEndView {
    /// The loop returned a hard error before any terminal capture.
    WorkerError(Seq<char>),
    /// The race resolved with this capture: by the capture signal, by the
    /// loop returning cleanly, or by the timeout (events exhausted).
    Finished(CapturedResultView),
}

/// The race, replayed over the engine events in order. A command batch is
/// recorded whole; if it leaves the capture terminal, the signal wins the
/// race. A task-level failure is recorded (and the signal raised) only when
/// the task-failure interceptor was installed, which happens exactly when the
/// synthesized history contains a failure. A loop exit ends the race at once.
/// Exhausting the events is the timeout elapsing.
pub open spec fn run_race(
    has_failure: bool,
    cap: CapturedResultView,
    events: Seq<EngineEventView>,
) -> RaceEndView
    decreases events.len(),
{
    if events.len() == 0 {
        RaceEndView::Finished(cap)
    } else {
        match events[0] {
            EngineEventView::CommandBatch(cmds) => {
                let cap2 = record_batch(cap, cmds);
                if capture_terminal(cap2) {
                    RaceEndView::Finished(cap2)
                } else {
                    run_race(has_failure, cap2, events.drop_first())
                }
            },
            EngineEventView::TaskFailure(f) => {
                if has_failure {
                    RaceEndView::Finished(record_task_failure(cap, f))
                } else {
                    run_race(has_failure, cap, events.drop_first())
                }
            },
            EngineEventView::WorkerExit(e) => {
                match e {
                    Some(m) => RaceEndView::WorkerError(m),
                    None => RaceEndView::Finished(cap),
                }
            },
        }
    }
}

/// Reading the capture once the race has resolved: an explicit fail-workflow
/// command takes precedence over a task-level failure, which takes precedence
/// over a success; an empty capture yields nothing.
pub open spec fn resolve_capture(cap: CapturedResultView) -> Option<WorkflowTestResultView> {
    if cap.command_failure is Some {
        Some(Err(cap.command_failure->0))
    } else if cap.wft_failure is Some {
        Some(Err(cap.wft_failure->0))
    } else if cap.success is Some {
        Some(Ok(cap.success->0))
    } else {
        None
    }
}

/// The outcome of one `execute_workflow` call.
#[verifier::ext_equal]
pub enum ExecuteOutcomeView {
    /// The loop returned a hard error: the call fails with a worker error.
    WorkerError(Seq<char>),
    /// No terminal outcome was captured: the call fails with no result.
    NoResult,
    /// A terminal outcome was captured and stored.
    Completed(WorkflowTestResultView),
}

/// What `execute_workflow` does, as a function of the mock registry and the
/// engine events.
pub open spec fn execute_outcome(
    ms: Seq<(Seq<char>, ActivityMockView)>,
    events: Seq<EngineEventView>,
) -> ExecuteOutcomeView {
    match run_race(spec_has_failure(ms), empty_capture(), events) {
        RaceEndView::WorkerError(m) => ExecuteOutcomeView::WorkerError(m),
        RaceEndView::Finished(cap) => match resolve_capture(cap) {
            Some(outcome) => ExecuteOutcomeView::Completed(outcome),
            None => ExecuteOutcomeView::NoResult,
        },
    }
}

/// Mathematical model of a [`TestWorkflowEnvironment`].
#[verifier::ext_equal]
pub struct TestWorkflowEnvironmentView {
    /// Whether an activity implementation has been registered.
    pub activities_registered: bool,
    /// The ordered mock registry.
    pub activity_mocks: Seq<(Seq<char>, ActivityMockView)>,
    /// The wait bound, in milliseconds.
    pub timeout_ms: int,
    /// Whether execution has finished (success or failure).
    pub completed: bool,
    /// The stored outcome, fixed once execution completes.
    pub result: Option<WorkflowTestResultView>,
    /// The history handed to the mock poll source, kept for inspection.
    pub history: Option<Seq<crate::history::HistoryEventView>>,
}

/// A mutable test environment for executing one workflow against mocked
/// activity outcomes.
pub struct TestWorkflowEnvironment {
    activity_registrar: Option<Activities>,
    activity_mocks: Vec<(String, ActivityMock)>,
    timeout_ms: u64,
    completed: bool,
    result: Option<WorkflowTestResult>,
    history: Option<SyntheticHistory>,
}

impl View for TestWorkflowEnvironment {
    type V = TestWorkflowEnvironmentView;

    closed spec fn view(&self) -> TestWorkflowEnvironmentView {
        TestWorkflowEnvironmentView {
            activities_registered: self.activity_registrar is Some,
            activity_mocks: mocks_view(self.activity_mocks@),
            timeout_ms: self.timeout_ms as int,
            completed: self.completed,
            result: match self.result {
                Some(r) => Some(test_result_view(r)),
                None => None,
            },
            history: match self.history {
                Some(h) => Some(h@),
                None => None,
            },
        }
    }
}

/// Fluent handle for mocking a single activity, bound to the activity's name;
/// exactly one of `returns_value` / `returns_err` consumes it and appends the
/// mock to the environment's registry.
pub struct ActivityMockCall {
    name: String,
}

impl View for ActivityMockCall {
    type V = Seq<char>;

    closed spec fn view(&self) -> Seq<char> {
        self.name@
    }
}

impl ActivityMockCall {
    /// Mock this activity to succeed with the given JSON-encodable string
    /// value.
    pub fn returns_value(self, env: &mut TestWorkflowEnvironment, value: &str)
        ensures
            final(env)@ == (TestWorkflowEnvironmentView {
                activity_mocks: old(env)@.activity_mocks + seq![
                    (self@, ActivityMockView::Success(crate::payload::json_string_bytes(value@))),
                ],
                ..old(env)@
            }),
    {
        let payload = Payload::from_json_string(value);
        env.push_mock(self.name, ActivityMock::Success(payload));
    }

    /// Mock this activity to fail with the given error message.
    pub fn returns_err(self, env: &mut TestWorkflowEnvironment, message: &str)
        ensures
            final(env)@ == (TestWorkflowEnvironmentView {
                activity_mocks: old(env)@.activity_mocks + seq![
                    (self@, ActivityMockView::Failure(message@)),
                ],
                ..old(env)@
            }),
    {
        env.push_mock(self.name, ActivityMock::Failure(String::from_str(message)));
    }
}

impl TestWorkflowEnvironment {
    /// Create a new test environment with the default wait bound of 15
    /// seconds.
    pub fn new() -> (r: Self)
        ensures
            r@ == (TestWorkflowEnvironmentView {
                activities_registered: false,
                activity_mocks: Seq::empty(),
                timeout_ms: 15000,
                completed: false,
                result: None,
                history: None,
            }),
    {
        let r = TestWorkflowEnvironment {
            activity_registrar: None,
            activity_mocks: Vec::new(),
            timeout_ms: 15000,
            completed: false,
            result: None,
            history: None,
        };
        proof {
            assert(mocks_view(r.activity_mocks@) =~= Seq::<(Seq<char>, ActivityMockView)>::empty());
        }
        r
    }

    /// Register the activity implementation to be installed on the execution
    /// loop's worker at run time; replaces any previously registered one.
    pub fn register_activities(&mut self, instance: Activities)
        ensures
            final(self)@ == (TestWorkflowEnvironmentView { activities_registered: true, ..old(self)@ }),
    {
        self.activity_registrar = Some(instance);
    }

    /// Begin mocking an activity by name. Call `returns_value` or `returns_err`
    /// on the returned handle to complete the mock.
    pub fn on_activity(&self, name: &str) -> (r: ActivityMockCall)
        ensures
            r@ == name@,
    {
        ActivityMockCall { name: String::from_str(name) }
    }

    /// Set the wait bound for the race, in milliseconds.
    pub fn set_test_timeout(&mut self, timeout_ms: u64)
        ensures
            final(self)@ == (TestWorkflowEnvironmentView { timeout_ms: timeout_ms as int, ..old(self)@ }),
    {
        self.timeout_ms = timeout_ms;
    }

    /// Append one completed mock declaration.
    fn push_mock(&mut self, name: String, mock: ActivityMock)
        ensures
            final(self)@ == (TestWorkflowEnvironmentView {
                activity_mocks: old(self)@.activity_mocks + seq![(name@, mock@)],
                ..old(self)@
            }),
    {
        let ghost before = self.activity_mocks@;
        self.activity_mocks.push((name, mock));
        proof {
            assert(mocks_view(self.activity_mocks@) =~= mocks_view(before) + seq![
                (self.activity_mocks@.last().0@, self.activity_mocks@.last().1@),
            ]);
        }
    }

    /// Execute the workflow once, storing the outcome internally.
    ///
    /// Builds the synthetic history from the mock registry, configures the
    /// interceptors (the task-failure interceptor only when the history
    /// contains a failure), and resolves the race over the engine events in
    /// order. A hard loop error fails the call; a captured workflow outcome —
    /// success or failure — completes it.
    pub fn execute_workflow(
        &mut self,
        workflow_type: &str,
        input: Payload,
        events: Vec<EngineEvent>,
    ) -> (r: Result<(), TestHarnessError>)
        requires
            !old(self)@.completed,
            old(self)@.result is None,
            6 * old(self)@.activity_mocks.len() + 4 <= u64::MAX,
        ensures
            final(self)@.activities_registered == old(self)@.activities_registered,
            final(self)@.activity_mocks == old(self)@.activity_mocks,
            final(self)@.timeout_ms == old(self)@.timeout_ms,
            final(self)@.history == Some(
                spec_history(workflow_type@, seq![input@], old(self)@.activity_mocks),
            ),
            match execute_outcome(old(self)@.activity_mocks, events_view(events@)) {
                ExecuteOutcomeView::WorkerError(m) => {
                    &&& r matches Err(TestHarnessError::WorkerError(d)) && d@ == m
                    &&& !final(self)@.completed
                    &&& final(self)@.result is None
                },
                ExecuteOutcomeView::NoResult => {
                    &&& r matches Err(TestHarnessError::NoResult)
                    &&& !final(self)@.completed
                    &&& final(self)@.result is None
                },
                ExecuteOutcomeView::Completed(outcome) => {
                    &&& r is Ok
                    &&& final(self)@.completed
                    &&& final(self)@.result == Some(outcome)
                },
            },
    {
        let input_payloads = Payloads { payloads: vec![input] };
        proof {
            assert(input_payloads@ =~= seq![input@]);
        }
        let (history, has_failure) = build_history(
            workflow_type,
            input_payloads,
            &self.activity_mocks,
        );
        self.history = Some(history);

        let ghost ms = mocks_view(self.activity_mocks@);
        let ghost all_events = events_view(events@);
        proof {
            assert(all_events.skip(0) =~= all_events);
        }
        let mut capture = CapturedResult::new();
        let mut worker_error: Option<String> = None;
        let mut race_over = false;

        let n = events.len();
        let mut i: usize = 0;
        while i < n && !race_over
            invariant
                n == events.len(),
                all_events == events_view(events@),
                0 <= i <= n,
                worker_error is Some ==> race_over,
                !race_over ==> !capture_terminal(capture@) && worker_error is None,
                !race_over ==> run_race(has_failure, empty_capture(), all_events) == run_race(
                    has_failure,
                    capture@,
                    all_events.skip(i as int),
                ),
                race_over ==> match worker_error {
                    Some(m) => run_race(has_failure, empty_capture(), all_events)
                        == RaceEndView::WorkerError(m@),
                    None => run_race(has_failure, empty_capture(), all_events)
                        == RaceEndView::Finished(capture@),
                },
            decreases n - i,
        {
            let ghost rest = all_events.skip(i as int);
            proof {
                assert(rest[0] == events@[i as int]@);
                assert(rest.drop_first() =~= all_events.skip(i + 1));
            }
            match &events[i] {
                EngineEvent::CommandBatch(cmds) => {
                    capture.record_batch(cmds);
                    if capture.is_terminal() {
                        race_over = true;
                    }
                },
                EngineEvent::TaskFailure(f) => {
                    if has_failure {
                        capture.record_task_failure(f);
                        race_over = true;
                    }
                },
                EngineEvent::WorkerExit(e) => {
                    match e {
                        Some(m) => {
                            worker_error = Some(m.clone());
                        },
                        None => {},
                    }
                    race_over = true;
                },
            }
            i = i + 1;
        }

        proof {
            if !race_over {
                assert(i == n);
                assert(all_events.skip(n as int) =~= Seq::<EngineEventView>::empty());
            }
        }

        match worker_error {
            Some(m) => {
                return Err(TestHarnessError::WorkerError(m));
            },
            None => {},
        }

        let ghost final_capture = capture@;
        let CapturedResult { success, command_failure, wft_failure } = capture;
        let outcome: WorkflowTestResult = match command_failure {
            Some(f) => Err(f),
            None => match wft_failure {
                Some(f) => Err(f),
                None => match success {
                    Some(p) => Ok(p),
                    None => {
                        return Err(TestHarnessError::NoResult);
                    },
                },
            },
        };
        proof {
            assert(Some(test_result_view(outcome)) == resolve_capture(final_capture));
        }

        self.completed = true;
        self.result = Some(outcome);
        Ok(())
    }

    /// Whether the workflow has finished executing (success or failure).
    pub fn is_workflow_completed(&self) -> (r: bool)
        ensures
            r == self@.completed,
    {
        self.completed
    }

    /// The synthetic history handed to the mock poll source, once execution
    /// has been attempted.
    pub fn synthesized_history(&self) -> (r: &Option<SyntheticHistory>)
        ensures
            match r {
                Some(h) => self@.history == Some(h@),
                None => self@.history is None,
            },
    {
        &self.history
    }

    /// The captured workflow failure, if the stored outcome is a failure.
    pub fn workflow_error(&self) -> (r: Option<&WorkflowFailure>)
        ensures
            match r {
                Some(f) => self@.result == Some::<WorkflowTestResultView>(Err(f@)),
                None => match self@.result {
                    Some(o) => o is Ok,
                    None => true,
                },
            },
    {
        match &self.result {
            Some(Err(failure)) => Some(failure),
            _ => None,
        }
    }

    /// Decode and return the successful workflow result as a string.
    ///
    /// Fails with `NotExecuted` before a completed execution, `WorkflowFailed`
    /// when the stored outcome is a failure, `NoResult` when the workflow
    /// completed with no payload, and `DeserializeError` when the payload is
    /// not the JSON encoding of a string.
    pub fn workflow_result(&self) -> (r: Result<String, WorkflowResultError>)
        ensures
            match self@.result {
                None => r matches Err(WorkflowResultError::NotExecuted),
                Some(Err(f)) => r matches Err(WorkflowResultError::WorkflowFailed(g)) && g@ == f,
                Some(Ok(None)) => r matches Err(WorkflowResultError::NoResult),
                Some(Ok(Some(ps))) => {
                    if ps.len() == 0 {
                        r matches Err(WorkflowResultError::NoResult)
                    } else {
                        match json_parsed_string(ps[0]) {
                            Some(s) => r matches Ok(v) && v@ == s,
                            None => r matches Err(WorkflowResultError::DeserializeError(_)),
                        }
                    }
                },
            },
    {
        let result = match &self.result {
            None => {
                return Err(WorkflowResultError::NotExecuted);
            },
            Some(r) => r,
        };
        match result {
            Err(failure) => Err(WorkflowResultError::WorkflowFailed(failure.clone())),
            Ok(None) => Err(WorkflowResultError::NoResult),
            Ok(Some(payloads)) => {
                if payloads.payloads.len() == 0 {
                    return Err(WorkflowResultError::NoResult);
                }
                let payload = &payloads.payloads[0];
                proof {
                    assert(payloads@[0] == payloads.payloads@[0]@);
                }
                match json_decode_string(payload.data.as_slice()) {
                    Ok(s) => Ok(s),
                    Err(detail) => Err(WorkflowResultError::DeserializeError(detail)),
                }
            },
        }
    }
}

} // verus!
