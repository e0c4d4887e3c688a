use temporal_test_harness::TestWorkflowEnvironment;
use temporal_test_harness::TestHarnessError;
use temporal_test_harness::WorkflowResultError;
use temporal_test_harness::activity::Activities;
use temporal_test_harness::capture::ObservedCommand;
use temporal_test_harness::error::FailureDetail;
use temporal_test_harness::history::EventAttributes;
use temporal_test_harness::payload::{Payload, Payloads};
use temporal_test_harness::runner::EngineEvent;
use temporal_test_harness::workflow::MoneyTransferWorkflow;

/// A JSON payload for a workflow input, as a starter would encode it.
fn input_payload() -> Payload {
    Payload::from_json_string("payment: 400 from 85-150 to 43-812")
}

/// The engine events of a run whose workflow emits schedule commands for each
/// activity and then completes with the given result string.
fn events_completing_with(result: &str) -> Vec<EngineEvent> {
    vec![
        EngineEvent::CommandBatch(vec![ObservedCommand::Other]),
        EngineEvent::CommandBatch(vec![ObservedCommand::Other]),
        EngineEvent::CommandBatch(vec![ObservedCommand::CompleteWorkflow(Some(Payloads {
            payloads: vec![Payload::from_json_string(result)],
        }))]),
    ]
}

#[test]
fn workflow_test_test_money_transfer_happy_path() {
    let mut env = TestWorkflowEnvironment::new();
    env.register_activities(Activities);
    let call = env.on_activity("Activities::withdraw");
    call.returns_value(&mut env, "W1234567890");
    let call = env.on_activity("Activities::deposit");
    call.returns_value(&mut env, "D0987654321");

    env.execute_workflow(
        "MoneyTransferWorkflow",
        input_payload(),
        events_completing_with("Transfer complete: W1234567890, D0987654321"),
    )
    .expect("harness should not error");

    assert!(env.is_workflow_completed());
    assert!(env.workflow_error().is_none());
    let result: String = env.workflow_result().unwrap();
    assert!(
        result.contains("W1234567890"),
        "Expected withdraw ID in output: {result}"
    );
    assert!(
        result.contains("D0987654321"),
        "Expected deposit ID in output: {result}"
    );
}

#[test]
fn workflow_test_test_money_transfer_deposit_fails() {
    let mut env = TestWorkflowEnvironment::new();
    env.register_activities(Activities);
    let call = env.on_activity("Activities::withdraw");
    call.returns_value(&mut env, "W1234567890");
    let call = env.on_activity("Activities::deposit");
    call.returns_err(&mut env, "deposit failed");

    // The workflow propagates the activity failure, so the engine surfaces a
    // task-level failure instead of a fail-workflow command.
    let events = vec![
        EngineEvent::CommandBatch(vec![ObservedCommand::Other]),
        EngineEvent::TaskFailure(Some(FailureDetail { message: "deposit failed".to_string() })),
    ];
    env.execute_workflow("MoneyTransferWorkflow", input_payload(), events)
        .expect("harness should not error");

    assert!(env.is_workflow_completed());
    let err = env.workflow_error().expect("expected a workflow failure");
    assert_eq!(err.message, "deposit failed");
    assert!(err.is_wft_failure);
}

#[test]
fn workflow_test_test_money_transfer_withdraw_fails() {
    let mut env = TestWorkflowEnvironment::new();
    env.register_activities(Activities);
    let call = env.on_activity("Activities::withdraw");
    call.returns_err(&mut env, "withdraw failed");

    let events = vec![
        EngineEvent::TaskFailure(Some(FailureDetail { message: "withdraw failed".to_string() })),
    ];
    env.execute_workflow("MoneyTransferWorkflow", input_payload(), events)
        .expect("harness should not error");

    assert!(env.is_workflow_completed());
    assert!(env.workflow_error().is_some());

    // With the failure on the very first mock, the synthesized history holds
    // the events of the withdraw activity alone.
    let history = env.synthesized_history().as_ref().expect("history was synthesized");
    let scheduled: Vec<&EventAttributes> = history
        .events
        .iter()
        .map(|e| &e.attributes)
        .filter(|a| matches!(a, EventAttributes::ActivityTaskScheduled { .. }))
        .collect();
    assert_eq!(scheduled.len(), 1);
    assert!(matches!(
        scheduled[0],
        EventAttributes::ActivityTaskScheduled { activity_id: 1, activity_type }
            if activity_type == "Activities::withdraw"
    ));
    // Started event, one six-event block, final task scheduled/started pair.
    assert_eq!(history.events.len(), 9);
}

#[test]
fn workflow_times_out_without_terminal_outcome() {
    let mut env = TestWorkflowEnvironment::new();
    env.set_test_timeout(10);

    // No mocks declared and nothing terminal observed before the timeout.
    let result = env.execute_workflow("MoneyTransferWorkflow", input_payload(), Vec::new());

    assert!(matches!(result, Err(TestHarnessError::NoResult)));
    assert!(!env.is_workflow_completed());
}

#[test]
fn workflow_result_before_execution_is_not_executed() {
    let env = TestWorkflowEnvironment::new();
    assert!(matches!(
        env.workflow_result(),
        Err(WorkflowResultError::NotExecuted)
    ));
    assert!(!env.is_workflow_completed());
    assert!(env.workflow_error().is_none());
}

#[test]
fn workflow_result_after_failure_keeps_message() {
    let mut env = TestWorkflowEnvironment::new();
    let call = env.on_activity("Activities::withdraw");
    call.returns_value(&mut env, "W1");

    // The workflow emits an explicit fail-workflow command.
    let events = vec![EngineEvent::CommandBatch(vec![ObservedCommand::FailWorkflow(Some(
        FailureDetail { message: "transfer rejected".to_string() },
    ))])];
    env.execute_workflow("MoneyTransferWorkflow", input_payload(), events)
        .expect("harness should not error");

    match env.workflow_result() {
        Err(WorkflowResultError::WorkflowFailed(failure)) => {
            assert_eq!(failure.message, "transfer rejected");
            assert!(!failure.is_wft_failure);
        },
        other => panic!("expected WorkflowFailed, got {other:?}"),
    }
}

#[test]
fn fail_command_without_detail_gets_placeholder_message() {
    let mut env = TestWorkflowEnvironment::new();
    let events = vec![EngineEvent::CommandBatch(vec![ObservedCommand::FailWorkflow(None)])];
    env.execute_workflow("MoneyTransferWorkflow", input_payload(), events)
        .expect("harness should not error");
    let err = env.workflow_error().expect("expected a workflow failure");
    assert_eq!(err.message, "workflow failed (no message)");
}

#[test]
fn worker_error_aborts_execution() {
    let mut env = TestWorkflowEnvironment::new();
    let events = vec![EngineEvent::WorkerExit(Some("connection reset".to_string()))];
    let result = env.execute_workflow("MoneyTransferWorkflow", input_payload(), events);
    match result {
        Err(TestHarnessError::WorkerError(detail)) => {
            assert_eq!(detail, "connection reset");
        },
        other => panic!("expected WorkerError, got {other:?}"),
    }
    assert!(!env.is_workflow_completed());
    assert!(matches!(
        env.workflow_result(),
        Err(WorkflowResultError::NotExecuted)
    ));
}

#[test]
fn clean_worker_exit_without_capture_yields_no_result() {
    let mut env = TestWorkflowEnvironment::new();
    let events = vec![EngineEvent::WorkerExit(None)];
    let result = env.execute_workflow("MoneyTransferWorkflow", input_payload(), events);
    assert!(matches!(result, Err(TestHarnessError::NoResult)));
    assert!(!env.is_workflow_completed());
}

#[test]
fn completion_without_payload_yields_no_result_error() {
    let mut env = TestWorkflowEnvironment::new();
    let events = vec![EngineEvent::CommandBatch(vec![ObservedCommand::CompleteWorkflow(None)])];
    env.execute_workflow("MoneyTransferWorkflow", input_payload(), events)
        .expect("harness should not error");
    assert!(env.is_workflow_completed());
    assert!(env.workflow_error().is_none());
    assert!(matches!(
        env.workflow_result(),
        Err(WorkflowResultError::NoResult)
    ));
}

#[test]
fn completion_with_empty_payload_batch_yields_no_result_error() {
    let mut env = TestWorkflowEnvironment::new();
    let events = vec![EngineEvent::CommandBatch(vec![ObservedCommand::CompleteWorkflow(Some(
        Payloads { payloads: vec![] },
    ))])];
    env.execute_workflow("MoneyTransferWorkflow", input_payload(), events)
        .expect("harness should not error");
    assert!(matches!(
        env.workflow_result(),
        Err(WorkflowResultError::NoResult)
    ));
}

#[test]
fn undecodable_payload_yields_deserialize_error() {
    let mut env = TestWorkflowEnvironment::new();
    let events = vec![EngineEvent::CommandBatch(vec![ObservedCommand::CompleteWorkflow(Some(
        Payloads { payloads: vec![Payload { data: vec![0xff, 0x00] }] },
    ))])];
    env.execute_workflow("MoneyTransferWorkflow", input_payload(), events)
        .expect("harness should not error");
    assert!(matches!(
        env.workflow_result(),
        Err(WorkflowResultError::DeserializeError(_))
    ));
}

#[test]
fn explicit_failure_takes_precedence_over_success() {
    let mut env = TestWorkflowEnvironment::new();
    // One batch carries both a completion and an explicit failure; the
    // explicit failure is authoritative.
    let events = vec![EngineEvent::CommandBatch(vec![
        ObservedCommand::CompleteWorkflow(Some(Payloads {
            payloads: vec![Payload::from_json_string("done")],
        })),
        ObservedCommand::FailWorkflow(Some(FailureDetail { message: "late failure".to_string() })),
    ])];
    env.execute_workflow("MoneyTransferWorkflow", input_payload(), events)
        .expect("harness should not error");
    let err = env.workflow_error().expect("expected the failure to win");
    assert_eq!(err.message, "late failure");
}

#[test]
fn first_recorded_completion_wins() {
    let mut env = TestWorkflowEnvironment::new();
    let events = vec![EngineEvent::CommandBatch(vec![
        ObservedCommand::CompleteWorkflow(Some(Payloads {
            payloads: vec![Payload::from_json_string("first")],
        })),
        ObservedCommand::CompleteWorkflow(Some(Payloads {
            payloads: vec![Payload::from_json_string("second")],
        })),
    ])];
    env.execute_workflow("MoneyTransferWorkflow", input_payload(), events)
        .expect("harness should not error");
    assert_eq!(env.workflow_result().unwrap(), "first");
}

#[test]
fn task_failure_is_ignored_without_failing_mock() {
    let mut env = TestWorkflowEnvironment::new();
    let call = env.on_activity("Activities::withdraw");
    call.returns_value(&mut env, "W1");

    // No mock failed, so the task-failure interceptor is not installed and
    // the reported task failure cannot end the race.
    let events = vec![
        EngineEvent::TaskFailure(Some(FailureDetail { message: "spurious".to_string() })),
    ];
    let result = env.execute_workflow("MoneyTransferWorkflow", input_payload(), events);
    assert!(matches!(result, Err(TestHarnessError::NoResult)));
    assert!(!env.is_workflow_completed());
}

#[test]
fn workflow_name_labels_synthesized_history() {
    let mut env = TestWorkflowEnvironment::new();
    env.execute_workflow(
        MoneyTransferWorkflow::name(),
        input_payload(),
        vec![EngineEvent::CommandBatch(vec![ObservedCommand::CompleteWorkflow(None)])],
    )
    .expect("harness should not error");
    let history = env.synthesized_history().as_ref().expect("history was synthesized");
    assert!(matches!(
        &history.events[0].attributes,
        EventAttributes::WorkflowExecutionStarted { workflow_type, .. }
            if workflow_type == "MoneyTransferWorkflow"
    ));
}
