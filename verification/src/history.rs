//! Synthetic event-history construction.
//!
//! From an ordered list of (activity name, mocked outcome) pairs, the harness
//! builds the event sequence a real orchestration engine would have recorded:
//! a workflow-started event, then for each mock a full task boundary followed
//! by that activity's scheduled/started/completed-or-failed events, stopping
//! at the first failure, and a final task scheduled/started pair so the
//! workflow under test gets one more chance to process the last outcome.

use vstd::prelude::*;
use crate::payload::{Payload, Payloads};
use crate::error::FailureDetail;

verus! {

/// A single mocked activity outcome.
#[derive(Debug)]
pub enum ActivityMock {
    /// The activity completes successfully with the given payload.
    Success(Payload),
    /// The activity fails with the given error message.
    Failure(String),
}

/// Mathematical model of an [`ActivityMock`].
#[verifier::ext_equal]
pub enum ActivityMockView {
    /// A successful outcome carrying the payload bytes.
    Success(Seq<u8>),
    /// A failing outcome carrying the message.
    Failure(Seq<char>),
}

impl View for ActivityMock {
    type V = ActivityMockView;

    open spec fn view(&self) -> ActivityMockView {
        match self {
            ActivityMock::Success(p) => ActivityMockView::Success(p@),
            ActivityMock::Failure(m) => ActivityMockView::Failure(m@),
        }
    }
}

/// The view of an ordered mock registry.
pub open spec fn mocks_view(v: Seq<(String, ActivityMock)>) -> Seq<(Seq<char>, ActivityMockView)> {
    v.map_values(|p: (String, ActivityMock)| (p.0@, p.1@))
}

/// What one synthetic history event records.
#[derive(Debug)]
pub enum EventAttributes {
    /// The workflow execution started, with its type name and input.
    WorkflowExecutionStarted { workflow_type: String, input: Payloads },
    /// A workflow task (decision round) was scheduled.
    WorkflowTaskScheduled,
    /// A workflow task was started.
    WorkflowTaskStarted,
    /// A workflow task completed.
    WorkflowTaskCompleted,
    /// An activity was scheduled; `activity_id` is its 1-based index.
    ActivityTaskScheduled { activity_id: u64, activity_type: String },
    /// A scheduled activity was started.
    ActivityTaskStarted { scheduled_event_id: u64 },
    /// An activity completed with a result.
    ActivityTaskCompleted { scheduled_event_id: u64, started_event_id: u64, result: Option<Payloads> },
    /// An activity failed.
    ActivityTaskFailed { scheduled_event_id: u64, started_event_id: u64, failure: Option<FailureDetail> },
}

/// Mathematical model of [`EventAttributes`].
#[verifier::ext_equal]
pub enum EventAttributesView {
    /// The workflow execution started.
    WorkflowExecutionStarted { workflow_type: Seq<char>, input: Seq<Seq<u8>> },
    /// A workflow task was scheduled.
    WorkflowTaskScheduled,
    /// A workflow task was started.
    WorkflowTaskStarted,
    /// A workflow task completed.
    WorkflowTaskCompleted,
    /// An activity was scheduled.
    ActivityTaskScheduled { activity_id: int, activity_type: Seq<char> },
    /// A scheduled activity was started.
    ActivityTaskStarted { scheduled_event_id: int },
    /// An activity completed.
    ActivityTaskCompleted { scheduled_event_id: int, started_event_id: int, result: Option<Seq<Seq<u8>>> },
    /// An activity failed.
    ActivityTaskFailed { scheduled_event_id: int, started_event_id: int, failure: Option<Seq<char>> },
}

impl View for EventAttributes {
    type V = EventAttributesView;

    open spec fn view(&self) -> EventAttributesView {
        match self {
            EventAttributes::WorkflowExecutionStarted { workflow_type, input } => (
                EventAttributesView::WorkflowExecutionStarted { workflow_type: workflow_type@, input: input@ }
            ),
            EventAttributes::WorkflowTaskScheduled => EventAttributesView::WorkflowTaskScheduled,
            EventAttributes::WorkflowTaskStarted => EventAttributesView::WorkflowTaskStarted,
            EventAttributes::WorkflowTaskCompleted => EventAttributesView::WorkflowTaskCompleted,
            EventAttributes::ActivityTaskScheduled { activity_id, activity_type } => (
                EventAttributesView::ActivityTaskScheduled {
                    activity_id: *activity_id as int,
                    activity_type: activity_type@,
                }
            ),
            EventAttributes::ActivityTaskStarted { scheduled_event_id } => (
                EventAttributesView::ActivityTaskStarted { scheduled_event_id: *scheduled_event_id as int }
            ),
            EventAttributes::ActivityTaskCompleted { scheduled_event_id, started_event_id, result } => (
                EventAttributesView::ActivityTaskCompleted {
                    scheduled_event_id: *scheduled_event_id as int,
                    started_event_id: *started_event_id as int,
                    result: match result {
                        Some(p) => Some(p@),
                        None => None,
                    },
                }
            ),
            EventAttributes::ActivityTaskFailed { scheduled_event_id, started_event_id, failure } => (
                EventAttributesView::ActivityTaskFailed {
                    scheduled_event_id: *scheduled_event_id as int,
                    started_event_id: *started_event_id as int,
                    failure: match failure {
                        Some(d) => Some(d@),
                        None => None,
                    },
                }
            ),
        }
    }
}

/// One unit in the synthetic execution log: an attribute record with its
/// monotonically assigned, 1-based event id.
#[derive(Debug)]
pub struct HistoryEvent {
    /// The 1-based position of this event in the log.
    pub event_id: u64,
    /// What the event records.
    pub attributes: EventAttributes,
}

/// Mathematical model of a [`HistoryEvent`].
#[verifier::ext_equal]
pub struct HistoryEventView {
    /// The 1-based position of this event in the log.
    pub event_id: int,
    /// What the event records.
    pub attributes: EventAttributesView,
}

impl View for HistoryEvent {
    type V = HistoryEventView;

    open spec fn view(&self) -> HistoryEventView {
        HistoryEventView { event_id: self.event_id as int, attributes: self.attributes@ }
    }
}

/// The full synthetic log.
#[derive(Debug)]
pub struct SyntheticHistory {
    /// The events, in order; the event at position `i` has id `i + 1`.
    pub events: Vec<HistoryEvent>,
}

impl View for SyntheticHistory {
    type V = Seq<HistoryEventView>;

    open spec fn view(&self) -> Seq<HistoryEventView> {
        self.events@.map_values(|e: HistoryEvent| e@)
    }
}

/// The six events one mock contributes: a full task boundary
/// (scheduled/started/completed), then the activity's scheduled, started,
/// and completed-or-failed events. `index` is the 1-based activity index and
/// `base` the event id of the block's first event.
pub open spec fn activity_block(
    name: Seq<char>,
    mock: ActivityMockView,
    index: int,
    base: int,
) -> Seq<HistoryEventView> {
    seq![
        HistoryEventView { event_id: base, attributes: EventAttributesView::WorkflowTaskScheduled },
        HistoryEventView { event_id: base + 1, attributes: EventAttributesView::WorkflowTaskStarted },
        HistoryEventView { event_id: base + 2, attributes: EventAttributesView::WorkflowTaskCompleted },
        HistoryEventView {
            event_id: base + 3,
            attributes: EventAttributesView::ActivityTaskScheduled { activity_id: index, activity_type: name },
        },
        HistoryEventView {
            event_id: base + 4,
            attributes: EventAttributesView::ActivityTaskStarted { scheduled_event_id: base + 3 },
        },
        match mock {
            ActivityMockView::Success(p) => HistoryEventView {
                event_id: base + 5,
                attributes: EventAttributesView::ActivityTaskCompleted {
                    scheduled_event_id: base + 3,
                    started_event_id: base + 4,
                    result: Some(seq![p]),
                },
            },
            ActivityMockView::Failure(m) => HistoryEventView {
                event_id: base + 5,
                attributes: EventAttributesView::ActivityTaskFailed {
                    scheduled_event_id: base + 3,
                    started_event_id: base + 4,
                    failure: Some(m),
                },
            },
        },
    ]
}

/// The events contributed by the mocks from position `i` on, where `base` is
/// the next event id to assign: one block per mock, stopping after the first
/// failing mock.
pub open spec fn mock_events(
    ms: Seq<(Seq<char>, ActivityMockView)>,
    i: int,
    base: int,
) -> Seq<HistoryEventView>
    decreases ms.len() - i,
{
    if i < 0 || i >= ms.len() {
        seq![]
    } else {
        let block = activity_block(ms[i].0, ms[i].1, i + 1, base);
        if ms[i].1 is Failure {
            block
        } else {
            block + mock_events(ms, i + 1, base + 6)
        }
    }
}

/// How many mocks from position `i` on contribute events: all of them up to
/// and including the first failure.
pub open spec fn emitted_from(ms: Seq<(Seq<char>, ActivityMockView)>, i: int) -> int
    decreases ms.len() - i,
{
    if i < 0 || i >= ms.len() {
        0
    } else if ms[i].1 is Failure {
        1
    } else {
        1 + emitted_from(ms, i + 1)
    }
}

/// Whether any mock from position `i` on, up to the first failure, fails.
pub open spec fn has_failure_from(ms: Seq<(Seq<char>, ActivityMockView)>, i: int) -> bool
    decreases ms.len() - i,
{
    if i < 0 || i >= ms.len() {
        false
    } else if ms[i].1 is Failure {
        true
    } else {
        has_failure_from(ms, i + 1)
    }
}

/// Whether the mock registry contains a failing mock (before which no events
/// are truncated).
pub open spec fn spec_has_failure(ms: Seq<(Seq<char>, ActivityMockView)>) -> bool {
    has_failure_from(ms, 0)
}

/// The full synthetic history for a workflow type, input, and mock registry:
/// the started event, the mock blocks, and the final task scheduled/started
/// pair.
pub open spec fn spec_history(
    workflow_type: Seq<char>,
    input: Seq<Seq<u8>>,
    ms: Seq<(Seq<char>, ActivityMockView)>,
) -> Seq<HistoryEventView> {
    let tail_base = 2 + 6 * emitted_from(ms, 0);
    seq![
        HistoryEventView {
            event_id: 1,
            attributes: EventAttributesView::WorkflowExecutionStarted { workflow_type, input },
        },
    ] + mock_events(ms, 0, 2) + seq![
        HistoryEventView { event_id: tail_base, attributes: EventAttributesView::WorkflowTaskScheduled },
        HistoryEventView { event_id: tail_base + 1, attributes: EventAttributesView::WorkflowTaskStarted },
    ]
}

/// Build a synthetic workflow history from activity mocks.
///
/// Returns the history and a flag that is true if any activity was mocked as
/// a failure; history construction stops after the first failing mock.
pub fn build_history(
    workflow_type: &str,
    input_payloads: Payloads,
    activity_mocks: &Vec<(String, ActivityMock)>,
) -> (r: (SyntheticHistory, bool))
    requires
        6 * activity_mocks@.len() + 4 <= u64::MAX,
    ensures
        r.0@ == spec_history(workflow_type@, input_payloads@, mocks_view(activity_mocks@)),
        r.1 == spec_has_failure(mocks_view(activity_mocks@)),
{
    let ghost ms = mocks_view(activity_mocks@);
    let ghost start_event = HistoryEventView {
        event_id: 1,
        attributes: EventAttributesView::WorkflowExecutionStarted {
            workflow_type: workflow_type@,
            input: input_payloads@,
        },
    };
    let mut events: Vec<HistoryEvent> = Vec::new();
    events.push(HistoryEvent {
        event_id: 1,
        attributes: EventAttributes::WorkflowExecutionStarted {
            workflow_type: String::from_str(workflow_type),
            input: input_payloads,
        },
    });
    assert(events@.map_values(|e: HistoryEvent| e@) =~~= seq![start_event]);

    let mut has_failure = false;
    let mut next_id: u64 = 2;
    let mut i: usize = 0;
    let n = activity_mocks.len();
    let ghost mut done: Seq<HistoryEventView> = Seq::empty();
    proof {
        assert(mock_events(ms, 0, 2) =~~= done + mock_events(ms, 0, 2));
    }

    while i < n && !has_failure
        invariant
            n == activity_mocks.len(),
            ms == mocks_view(activity_mocks@),
            6 * n + 4 <= u64::MAX,
            0 <= i <= n,
            next_id == 2 + 6 * i,
            events@.map_values(|e: HistoryEvent| e@) == seq![start_event] + done,
            !has_failure ==> forall|j: int| 0 <= j < i ==> ms[j].1 is Success,
            !has_failure ==> mock_events(ms, 0, 2) == done + mock_events(
                ms,
                i as int,
                next_id as int,
            ),
            has_failure ==> done == mock_events(ms, 0, 2),
            has_failure ==> emitted_from(ms, 0) == i as int,
            has_failure ==> spec_has_failure(ms),
        decreases n - i,
    {
        let activity_name = &activity_mocks[i].0;
        let activity_index = (i as u64) + 1;
        let base = next_id;
        let ghost events_before = events@.map_values(|e: HistoryEvent| e@);
        let ghost block = activity_block(ms[i as int].0, ms[i as int].1, i + 1, base as int);

        events.push(HistoryEvent { event_id: base, attributes: EventAttributes::WorkflowTaskScheduled });
        events.push(HistoryEvent { event_id: base + 1, attributes: EventAttributes::WorkflowTaskStarted });
        events.push(HistoryEvent { event_id: base + 2, attributes: EventAttributes::WorkflowTaskCompleted });
        events.push(HistoryEvent {
            event_id: base + 3,
            attributes: EventAttributes::ActivityTaskScheduled {
                activity_id: activity_index,
                activity_type: activity_name.clone(),
            },
        });
        events.push(HistoryEvent {
            event_id: base + 4,
            attributes: EventAttributes::ActivityTaskStarted { scheduled_event_id: base + 3 },
        });

        match &activity_mocks[i].1 {
            ActivityMock::Success(payload) => {
                events.push(HistoryEvent {
                    event_id: base + 5,
                    attributes: EventAttributes::ActivityTaskCompleted {
                        scheduled_event_id: base + 3,
                        started_event_id: base + 4,
                        result: Some(Payloads { payloads: vec![payload.clone()] }),
                    },
                });
            },
            ActivityMock::Failure(message) => {
                events.push(HistoryEvent {
                    event_id: base + 5,
                    attributes: EventAttributes::ActivityTaskFailed {
                        scheduled_event_id: base + 3,
                        started_event_id: base + 4,
                        failure: Some(FailureDetail { message: message.clone() }),
                    },
                });
                has_failure = true;
            },
        }

        assert(events@.map_values(|e: HistoryEvent| e@) =~~= events_before + block);
        proof {
            done = done + block;
            assert(events@.map_values(|e: HistoryEvent| e@) =~~= seq![start_event] + done);
        }

        if has_failure {
            proof {
                assert(ms[i as int].1 is Failure);
                assert(mock_events(ms, i as int, next_id as int) == block);
                assert(done =~~= mock_events(ms, 0, 2));
                lemma_emitted_stops_at(ms, i as int);
                assert(spec_has_failure(ms)) by {
                    lemma_has_failure_prefix(ms, i as int);
                }
            }
        } else {
            proof {
                assert(ms[i as int].1 is Success);
                assert(mock_events(ms, i as int, next_id as int) == block + mock_events(
                    ms,
                    i + 1,
                    next_id + 6,
                ));
                assert(mock_events(ms, 0, 2) =~~= done + mock_events(ms, i + 1, next_id + 6));
            }
        }
        next_id = next_id + 6;
        i = i + 1;
    }

    proof {
        if !has_failure {
            assert(i == n);
            assert(!spec_has_failure(ms)) by {
                lemma_no_failure_from(ms, 0);
            }
            assert(emitted_from(ms, 0) == n as int) by {
                lemma_emitted_all_success(ms, 0);
            }
            assert(mock_events(ms, i as int, next_id as int) =~~= Seq::<HistoryEventView>::empty());
            assert(done =~~= mock_events(ms, 0, 2));
        }
        assert(next_id as int == 2 + 6 * emitted_from(ms, 0));
    }

    let tail_base = next_id;
    events.push(HistoryEvent { event_id: tail_base, attributes: EventAttributes::WorkflowTaskScheduled });
    events.push(HistoryEvent { event_id: tail_base + 1, attributes: EventAttributes::WorkflowTaskStarted });

    let history = SyntheticHistory { events };
    assert(history@ =~~= spec_history(workflow_type@, input_payloads@, ms));
    (history, has_failure)
}

/// The events contributed from position `i` on number six per emitted mock.
pub proof fn lemma_mock_events_len(ms: Seq<(Seq<char>, ActivityMockView)>, i: int, base: int)
    ensures
        mock_events(ms, i, base).len() == 6 * emitted_from(ms, i),
    decreases ms.len() - i,
{
    if 0 <= i < ms.len() && !(ms[i].1 is Failure) {
        lemma_mock_events_len(ms, i + 1, base + 6);
    }
}

/// If every mock before position `i` succeeds and the mock at `i` fails, the
/// emitted count from the start is exactly `i + 1`.
pub proof fn lemma_emitted_stops_at(ms: Seq<(Seq<char>, ActivityMockView)>, i: int)
    requires
        0 <= i < ms.len(),
        ms[i].1 is Failure,
        forall|j: int| 0 <= j < i ==> ms[j].1 is Success,
    ensures
        emitted_from(ms, 0) == i + 1,
{
    lemma_emitted_from_offset(ms, 0, i);
}

/// Counting emitted mocks from a position where all mocks up to the failing
/// one succeed.
pub proof fn lemma_emitted_from_offset(ms: Seq<(Seq<char>, ActivityMockView)>, start: int, i: int)
    requires
        0 <= start <= i < ms.len(),
        ms[i].1 is Failure,
        forall|j: int| start <= j < i ==> ms[j].1 is Success,
    ensures
        emitted_from(ms, start) == i + 1 - start,
    decreases i - start,
{
    if start == i {
    } else {
        lemma_emitted_from_offset(ms, start + 1, i);
    }
}

/// A failure at position `i` makes the registry from any earlier
/// all-success position have a failure.
proof fn lemma_has_failure_prefix(ms: Seq<(Seq<char>, ActivityMockView)>, i: int)
    requires
        0 <= i < ms.len(),
        ms[i].1 is Failure,
        forall|j: int| 0 <= j < i ==> ms[j].1 is Success,
    ensures
        has_failure_from(ms, 0),
    decreases i,
{
    lemma_has_failure_from_offset(ms, 0, i);
}

/// Propagating a later failure back to an earlier position.
proof fn lemma_has_failure_from_offset(ms: Seq<(Seq<char>, ActivityMockView)>, start: int, i: int)
    requires
        0 <= start <= i < ms.len(),
        ms[i].1 is Failure,
    ensures
        has_failure_from(ms, start),
    decreases i - start,
{
    if start < i {
        lemma_has_failure_from_offset(ms, start + 1, i);
    }
}

/// A registry whose mocks all succeed has no failure.
pub proof fn lemma_no_failure_from(ms: Seq<(Seq<char>, ActivityMockView)>, start: int)
    requires
        forall|j: int| 0 <= j < ms.len() ==> ms[j].1 is Success,
        0 <= start,
    ensures
        !has_failure_from(ms, start),
    decreases ms.len() - start,
{
    if start < ms.len() {
        lemma_no_failure_from(ms, start + 1);
    }
}

/// A registry whose mocks all succeed emits every mock.
pub proof fn lemma_emitted_all_success(ms: Seq<(Seq<char>, ActivityMockView)>, start: int)
    requires
        forall|j: int| 0 <= j < ms.len() ==> ms[j].1 is Success,
        0 <= start <= ms.len(),
    ensures
        emitted_from(ms, start) == ms.len() - start,
    decreases ms.len() - start,
{
    if start < ms.len() {
        lemma_emitted_all_success(ms, start + 1);
    }
}

} // verus!
