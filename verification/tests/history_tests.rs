use temporal_test_harness::banking::{u64_to_string, BankingService, InsufficientFundsError};
use temporal_test_harness::activity::Activities;
use temporal_test_harness::error::WorkflowFailure;
use temporal_test_harness::history::{build_history, ActivityMock, EventAttributes};
use temporal_test_harness::payload::{Payload, Payloads};
use temporal_test_harness::shared::PaymentDetails;

fn payment() -> PaymentDetails {
    PaymentDetails {
        amount: 400,
        source_account: "85-150".to_string(),
        target_account: "43-812".to_string(),
        reference_id: "test-ref-001".to_string(),
    }
}

#[test]
fn history_of_one_success_mock_has_expected_shape() {
    let mocks = vec![(
        "Activities::withdraw".to_string(),
        ActivityMock::Success(Payload::from_json_string("W1")),
    )];
    let (history, has_failure) = build_history(
        "MoneyTransferWorkflow",
        Payloads { payloads: vec![Payload::from_json_string("input")] },
        &mocks,
    );
    assert!(!has_failure);

    let events = &history.events;
    assert_eq!(events.len(), 9);
    for (i, e) in events.iter().enumerate() {
        assert_eq!(e.event_id, (i + 1) as u64);
    }
    assert!(matches!(
        &events[0].attributes,
        EventAttributes::WorkflowExecutionStarted { workflow_type, .. }
            if workflow_type == "MoneyTransferWorkflow"
    ));
    assert!(matches!(&events[1].attributes, EventAttributes::WorkflowTaskScheduled));
    assert!(matches!(&events[2].attributes, EventAttributes::WorkflowTaskStarted));
    assert!(matches!(&events[3].attributes, EventAttributes::WorkflowTaskCompleted));
    assert!(matches!(
        &events[4].attributes,
        EventAttributes::ActivityTaskScheduled { activity_id: 1, activity_type }
            if activity_type == "Activities::withdraw"
    ));
    assert!(matches!(
        &events[5].attributes,
        EventAttributes::ActivityTaskStarted { scheduled_event_id: 5 }
    ));
    match &events[6].attributes {
        EventAttributes::ActivityTaskCompleted { scheduled_event_id, started_event_id, result } => {
            assert_eq!(*scheduled_event_id, 5);
            assert_eq!(*started_event_id, 6);
            let payloads = result.as_ref().expect("completed activity carries its result");
            assert_eq!(payloads.payloads.len(), 1);
            assert_eq!(payloads.payloads[0].data, serde_json::to_vec("W1").unwrap());
        },
        other => panic!("expected ActivityTaskCompleted, got {other:?}"),
    }
    assert!(matches!(&events[7].attributes, EventAttributes::WorkflowTaskScheduled));
    assert!(matches!(&events[8].attributes, EventAttributes::WorkflowTaskStarted));
}

#[test]
fn history_truncates_after_first_failure() {
    let mocks = vec![
        (
            "Activities::withdraw".to_string(),
            ActivityMock::Success(Payload::from_json_string("W1")),
        ),
        (
            "Activities::deposit".to_string(),
            ActivityMock::Failure("deposit failed".to_string()),
        ),
        (
            "Activities::refund".to_string(),
            ActivityMock::Success(Payload::from_json_string("R1")),
        ),
    ];
    let (history, has_failure) = build_history(
        "MoneyTransferWorkflow",
        Payloads { payloads: vec![Payload::from_json_string("input")] },
        &mocks,
    );
    assert!(has_failure);

    // Started event, two six-event blocks, final task pair; nothing for the
    // refund mock after the failing deposit.
    let events = &history.events;
    assert_eq!(events.len(), 15);
    let scheduled_names: Vec<&str> = events
        .iter()
        .filter_map(|e| match &e.attributes {
            EventAttributes::ActivityTaskScheduled { activity_type, .. } => {
                Some(activity_type.as_str())
            },
            _ => None,
        })
        .collect();
    assert_eq!(scheduled_names, vec!["Activities::withdraw", "Activities::deposit"]);
    match &events[12].attributes {
        EventAttributes::ActivityTaskFailed { scheduled_event_id, started_event_id, failure } => {
            assert_eq!(*scheduled_event_id, 11);
            assert_eq!(*started_event_id, 12);
            assert_eq!(failure.as_ref().unwrap().message, "deposit failed");
        },
        other => panic!("expected ActivityTaskFailed, got {other:?}"),
    }
}

#[test]
fn json_payload_encoding_is_not_the_raw_string() {
    let payload = Payload::from_json_string("W1234567890");
    assert_eq!(payload.data, serde_json::to_vec("W1234567890").unwrap());
    assert_ne!(payload.data, "W1234567890".as_bytes());
}

#[test]
fn u64_to_string_renders_decimal() {
    assert_eq!(u64_to_string(0), "0");
    assert_eq!(u64_to_string(7), "7");
    assert_eq!(u64_to_string(10), "10");
    assert_eq!(u64_to_string(2026), "2026");
    assert_eq!(u64_to_string(u64::MAX), u64::MAX.to_string());
}

#[test]
fn insufficient_funds_message_carries_both_amounts() {
    let err = InsufficientFundsError { current_balance: 2000, attempted_withdrawal: 5000 };
    assert_eq!(
        err.message(),
        "insufficient funds: current balance is 2000, attempted withdrawal of 5000"
    );
}

#[test]
fn workflow_failure_describes_itself() {
    let failure = WorkflowFailure {
        message: "deposit failed".to_string(),
        failure: None,
        is_wft_failure: true,
    };
    assert_eq!(failure.describe(), "WorkflowFailure: deposit failed");
}

#[test]
fn withdraw_confirmation_is_prefixed_digits() {
    let bank = BankingService { hostname: "test-bank.example.com".to_string() };
    let confirmation = bank.withdraw("85-150".to_string(), 1, "ref-9".to_string()).unwrap();
    assert_eq!(confirmation.len(), 11);
    assert!(confirmation.starts_with('W'));
    assert!(confirmation[1..].chars().all(|c| c.is_ascii_digit()));
}

#[test]
fn activities_resolve_their_banking_calls() {
    let withdrawal = Activities::withdraw(payment()).unwrap();
    assert!(withdrawal.starts_with('W'));

    let deposit = Activities::deposit(payment()).unwrap();
    assert!(deposit.starts_with('D'));

    let refund = Activities::refund(payment()).unwrap();
    assert!(refund.starts_with('D'));

    let mut missing = payment();
    missing.source_account = "99-999".to_string();
    let err = Activities::withdraw(missing).unwrap_err();
    assert!(err.message().contains("no account found with number 99-999"));
}
