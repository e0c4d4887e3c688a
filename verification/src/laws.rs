//! Laws of the harness: what holds of every execution, stated over the
//! mathematical models and proved once and for all.

use vstd::prelude::*;
use crate::capture::{
    CapturedResultView, ObservedCommandView, capture_terminal, empty_capture, failure_of_command,
    failure_of_task, record_batch, record_command, record_task_failure,
};
use crate::history::{
    ActivityMockView, EventAttributesView, HistoryEventView, activity_block,
    lemma_emitted_all_success, lemma_emitted_from_offset, lemma_emitted_stops_at,
    lemma_mock_events_len, lemma_no_failure_from, mock_events, spec_has_failure, spec_history,
};
use crate::runner::{EngineEventView, ExecuteOutcomeView, RaceEndView, execute_outcome, run_race};

verus! {

/// The position in the synthesized history of block `t`'s activity-scheduled
/// event.
pub open spec fn scheduled_slot(t: int) -> int {
    1 + 6 * t + 3
}

/// A batch that records nothing: neither a complete-workflow nor a
/// fail-workflow command.
pub open spec fn quiet_batch(cmds: Seq<ObservedCommandView>) -> bool {
    forall|k: int| 0 <= k < cmds.len() ==> cmds[k] is Other
}

/// An engine event that leaves the race running: a quiet batch, or a
/// task-level failure while the task-failure interceptor is not installed.
pub open spec fn quiet_event(has_failure: bool, e: EngineEventView) -> bool {
    match e {
        EngineEventView::CommandBatch(cmds) => quiet_batch(cmds),
        EngineEventView::TaskFailure(_) => !has_failure,
        EngineEventView::WorkerExit(_) => false,
    }
}

/// An event sequence during which nothing terminal is observed.
pub open spec fn all_quiet(has_failure: bool, events: Seq<EngineEventView>) -> bool {
    forall|k: int| 0 <= k < events.len() ==> quiet_event(has_failure, #[trigger] events[k])
}

/// The payloads of the first complete-workflow command of a batch, if any.
pub open spec fn batch_first_complete(cmds: Seq<ObservedCommandView>) -> Option<
    Option<Seq<Seq<u8>>>,
>
    decreases cmds.len(),
{
    if cmds.len() == 0 {
        None
    } else {
        match cmds[0] {
            ObservedCommandView::CompleteWorkflow(p) => Some(p),
            _ => batch_first_complete(cmds.drop_first()),
        }
    }
}

/// The detail of the first fail-workflow command of a batch, if any.
pub open spec fn batch_first_fail(cmds: Seq<ObservedCommandView>) -> Option<Option<Seq<char>>>
    decreases cmds.len(),
{
    if cmds.len() == 0 {
        None
    } else {
        match cmds[0] {
            ObservedCommandView::FailWorkflow(f) => Some(f),
            _ => batch_first_fail(cmds.drop_first()),
        }
    }
}

/// Recording a quiet batch changes nothing.
proof fn lemma_record_quiet_batch(cap: CapturedResultView, cmds: Seq<ObservedCommandView>)
    requires
        quiet_batch(cmds),
    ensures
        record_batch(cap, cmds) == cap,
    decreases cmds.len(),
{
    if cmds.len() > 0 {
        assert(cmds[0] is Other);
        assert(quiet_batch(cmds.drop_first()));
        lemma_record_quiet_batch(cap, cmds.drop_first());
    }
}

/// A race over quiet events only resolves with the capture unchanged.
proof fn lemma_race_all_quiet(
    has_failure: bool,
    cap: CapturedResultView,
    events: Seq<EngineEventView>,
)
    requires
        all_quiet(has_failure, events),
        !capture_terminal(cap),
    ensures
        run_race(has_failure, cap, events) == RaceEndView::Finished(cap),
    decreases events.len(),
{
    if events.len() > 0 {
        assert(quiet_event(has_failure, events[0]));
        match events[0] {
            EngineEventView::CommandBatch(cmds) => {
                lemma_record_quiet_batch(cap, cmds);
            },
            _ => {},
        }
        assert(all_quiet(has_failure, events.drop_first())) by {
            assert(forall|k: int|
                0 <= k < events.drop_first().len() ==> events.drop_first()[k] == events[k + 1]);
        }
        lemma_race_all_quiet(has_failure, cap, events.drop_first());
    }
}

/// A quiet prefix does not affect where the race ends.
proof fn lemma_race_quiet_prefix(
    has_failure: bool,
    cap: CapturedResultView,
    pre: Seq<EngineEventView>,
    tail: Seq<EngineEventView>,
)
    requires
        all_quiet(has_failure, pre),
        !capture_terminal(cap),
    ensures
        run_race(has_failure, cap, pre + tail) == run_race(has_failure, cap, tail),
    decreases pre.len(),
{
    if pre.len() == 0 {
        assert(pre + tail =~= tail);
    } else {
        let whole = pre + tail;
        assert(whole[0] == pre[0]);
        assert(quiet_event(has_failure, pre[0]));
        match pre[0] {
            EngineEventView::CommandBatch(cmds) => {
                lemma_record_quiet_batch(cap, cmds);
            },
            _ => {},
        }
        assert(all_quiet(has_failure, pre.drop_first())) by {
            assert(forall|k: int|
                0 <= k < pre.drop_first().len() ==> pre.drop_first()[k] == pre[k + 1]);
        }
        assert(whole.drop_first() =~= pre.drop_first() + tail);
        lemma_race_quiet_prefix(has_failure, cap, pre.drop_first(), tail);
    }
}

/// If the configured timeout elapses with no terminal command, no honored
/// task-level failure, and no loop exit observed, the execution yields no
/// result: `execute_workflow` fails with its no-result error and the
/// environment does not enter the completed state.
pub proof fn law_timeout_yields_no_result(
    ms: Seq<(Seq<char>, ActivityMockView)>,
    events: Seq<EngineEventView>,
)
    requires
        all_quiet(spec_has_failure(ms), events),
    ensures
        execute_outcome(ms, events) == ExecuteOutcomeView::NoResult,
{
    lemma_race_all_quiet(spec_has_failure(ms), empty_capture(), events);
}

/// Recording a batch without fail-workflow commands: the explicit-failure and
/// task-failure fields are untouched, and the success field receives the first
/// complete-workflow payload if it was still empty.
proof fn lemma_record_batch_no_fail(cap: CapturedResultView, cmds: Seq<ObservedCommandView>)
    requires
        batch_first_fail(cmds) is None,
    ensures
        record_batch(cap, cmds).command_failure == cap.command_failure,
        record_batch(cap, cmds).wft_failure == cap.wft_failure,
        record_batch(cap, cmds).success == (if cap.success is Some {
            cap.success
        } else {
            batch_first_complete(cmds)
        }),
    decreases cmds.len(),
{
    if cmds.len() > 0 {
        lemma_record_batch_no_fail(record_command(cap, cmds[0]), cmds.drop_first());
    }
}

/// Recording a batch: the explicit-failure field receives the first
/// fail-workflow command's detail if it was still empty, and the task-failure
/// field is untouched.
proof fn lemma_record_batch_first_fail(cap: CapturedResultView, cmds: Seq<ObservedCommandView>)
    ensures
        record_batch(cap, cmds).wft_failure == cap.wft_failure,
        record_batch(cap, cmds).command_failure == (if cap.command_failure is Some {
            cap.command_failure
        } else {
            match batch_first_fail(cmds) {
                Some(f) => Some(failure_of_command(f)),
                None => None,
            }
        }),
    decreases cmds.len(),
{
    if cmds.len() > 0 {
        lemma_record_batch_first_fail(record_command(cap, cmds[0]), cmds.drop_first());
    }
}

/// With only successful mocks, an execution whose first non-quiet engine
/// event is a command batch without fail-workflow commands but with a
/// complete-workflow command completes successfully: the stored outcome is a
/// success carrying exactly the first complete command's payloads, so no
/// workflow failure can be observed afterwards.
pub proof fn law_all_success_completes(
    ms: Seq<(Seq<char>, ActivityMockView)>,
    pre: Seq<EngineEventView>,
    cmds: Seq<ObservedCommandView>,
    rest: Seq<EngineEventView>,
    p: Option<Seq<Seq<u8>>>,
)
    requires
        forall|j: int| 0 <= j < ms.len() ==> ms[j].1 is Success,
        all_quiet(spec_has_failure(ms), pre),
        batch_first_fail(cmds) is None,
        batch_first_complete(cmds) == Some(p),
    ensures
        !spec_has_failure(ms),
        execute_outcome(ms, pre + seq![EngineEventView::CommandBatch(cmds)] + rest, )
            == ExecuteOutcomeView::Completed(Ok(p)),
{
    lemma_all_success_no_failure(ms);
    let hf = spec_has_failure(ms);
    let tail = seq![EngineEventView::CommandBatch(cmds)] + rest;
    assert(pre + seq![EngineEventView::CommandBatch(cmds)] + rest =~= pre + tail);
    lemma_race_quiet_prefix(hf, empty_capture(), pre, tail);
    assert(tail[0] == EngineEventView::CommandBatch(cmds));
    lemma_record_batch_no_fail(empty_capture(), cmds);
    let cap2 = record_batch(empty_capture(), cmds);
    assert(cap2.success == Some(p));
    assert(capture_terminal(cap2));
    assert(run_race(hf, empty_capture(), tail) == RaceEndView::Finished(cap2));
}

/// A registry of successful mocks alone synthesizes a history without
/// failures.
pub proof fn lemma_all_success_no_failure(ms: Seq<(Seq<char>, ActivityMockView)>)
    requires
        forall|j: int| 0 <= j < ms.len() ==> ms[j].1 is Success,
    ensures
        !spec_has_failure(ms),
{
    lemma_no_failure_from(ms, 0);
}

/// An execution whose first non-quiet engine event is a command batch with a
/// fail-workflow command stores a workflow failure whose message is exactly
/// the failing command's message: the failure is captured, it takes
/// precedence at resolution, and its message is preserved.
pub proof fn law_fail_command_message_preserved(
    ms: Seq<(Seq<char>, ActivityMockView)>,
    pre: Seq<EngineEventView>,
    cmds: Seq<ObservedCommandView>,
    rest: Seq<EngineEventView>,
    m: Seq<char>,
)
    requires
        all_quiet(spec_has_failure(ms), pre),
        batch_first_fail(cmds) == Some(Some(m)),
    ensures
        execute_outcome(ms, pre + seq![EngineEventView::CommandBatch(cmds)] + rest, ) matches
            ExecuteOutcomeView::Completed(outcome) && outcome matches Err(f) && f.message == m
            && !f.is_wft_failure,
{
    let hf = spec_has_failure(ms);
    let tail = seq![EngineEventView::CommandBatch(cmds)] + rest;
    assert(pre + seq![EngineEventView::CommandBatch(cmds)] + rest =~= pre + tail);
    lemma_race_quiet_prefix(hf, empty_capture(), pre, tail);
    assert(tail[0] == EngineEventView::CommandBatch(cmds));
    lemma_record_batch_first_fail(empty_capture(), cmds);
    let cap2 = record_batch(empty_capture(), cmds);
    assert(cap2.command_failure == Some(failure_of_command(Some(m))));
    assert(capture_terminal(cap2));
    assert(run_race(hf, empty_capture(), tail) == RaceEndView::Finished(cap2));
}

/// When the synthesized history contains a failure, an execution whose first
/// non-quiet engine event is a task-level failure stores a workflow failure
/// whose message is exactly the reported failure's message, marked as a
/// task-level failure.
pub proof fn law_task_failure_message_preserved(
    ms: Seq<(Seq<char>, ActivityMockView)>,
    pre: Seq<EngineEventView>,
    rest: Seq<EngineEventView>,
    m: Seq<char>,
)
    requires
        spec_has_failure(ms),
        all_quiet(spec_has_failure(ms), pre),
    ensures
        execute_outcome(ms, pre + seq![EngineEventView::TaskFailure(Some(m))] + rest, ) matches
            ExecuteOutcomeView::Completed(outcome) && outcome matches Err(f) && f.message == m
            && f.is_wft_failure,
{
    let hf = spec_has_failure(ms);
    let tail = seq![EngineEventView::TaskFailure(Some(m))] + rest;
    assert(pre + seq![EngineEventView::TaskFailure(Some(m))] + rest =~= pre + tail);
    lemma_race_quiet_prefix(hf, empty_capture(), pre, tail);
    assert(tail[0] == EngineEventView::TaskFailure(Some(m)));
    let cap2 = record_task_failure(empty_capture(), Some(m));
    assert(cap2.wft_failure == Some(failure_of_task(Some(m))));
    assert(run_race(hf, empty_capture(), tail) == RaceEndView::Finished(cap2));
}

/// The event of the emitted block sequence at flat position `idx`, counting
/// from mock `i` with first event id `base`.
pub open spec fn block_event(
    ms: Seq<(Seq<char>, ActivityMockView)>,
    i: int,
    base: int,
    idx: int,
) -> HistoryEventView {
    let t = i + idx / 6;
    activity_block(ms[t].0, ms[t].1, t + 1, base + 6 * (idx / 6))[idx % 6]
}

/// The synthesized history truncates at the first failing mock: with the
/// first failure at position `k`, the history holds the started event, one
/// six-event block per mock up to and including `k`, and the final task
/// scheduled/started pair — nothing for any later mock. Each block `t`
/// carries that mock's name and 1-based activity index at its fixed position,
/// and no activity-scheduled event stands anywhere else.
pub proof fn law_history_truncates_at_first_failure(
    workflow_type: Seq<char>,
    input: Seq<Seq<u8>>,
    ms: Seq<(Seq<char>, ActivityMockView)>,
    k: int,
)
    requires
        0 <= k < ms.len(),
        ms[k].1 is Failure,
        forall|j: int| 0 <= j < k ==> ms[j].1 is Success,
    ensures
        spec_history(workflow_type, input, ms).len() == 3 + 6 * (k + 1),
        forall|t: int|
            0 <= t <= k ==> spec_history(workflow_type, input, ms)[#[trigger] scheduled_slot(t)]
                == (HistoryEventView {
                event_id: 2 + 6 * t + 3,
                attributes: EventAttributesView::ActivityTaskScheduled {
                    activity_id: t + 1,
                    activity_type: ms[t].0,
                },
            }),
        forall|idx: int|
            0 <= idx < spec_history(workflow_type, input, ms).len() && (#[trigger] spec_history(
                workflow_type,
                input,
                ms,
            )[idx].attributes) is ActivityTaskScheduled ==> exists|t: int|
                0 <= t <= k && idx == #[trigger] scheduled_slot(t),
{
    lemma_emitted_stops_at(ms, k);
    lemma_mock_events_len(ms, 0, 2);
    let body = mock_events(ms, 0, 2);
    assert(body.len() == 6 * (k + 1));
    lemma_mock_events_at(ms, 0, 2, k);
    let h = spec_history(workflow_type, input, ms);
    assert(h.len() == 3 + 6 * (k + 1));
    assert forall|t: int| 0 <= t <= k implies h[#[trigger] scheduled_slot(t)]
        == (HistoryEventView {
        event_id: 2 + 6 * t + 3,
        attributes: EventAttributesView::ActivityTaskScheduled {
            activity_id: t + 1,
            activity_type: ms[t].0,
        },
    }) by {
        let idx = 6 * t + 3;
        assert(idx / 6 == t && idx % 6 == 3) by {
            assert(idx == 6 * t + 3);
        }
        assert(h[scheduled_slot(t)] == body[idx]);
        assert(body[idx] == block_event(ms, 0, 2, idx));
        assert(block_event(ms, 0, 2, idx) == activity_block(ms[t].0, ms[t].1, t + 1, 2 + 6 * t)[3]);
    }
    assert forall|idx: int|
        0 <= idx < h.len() && (#[trigger] h[idx].attributes) is ActivityTaskScheduled implies exists|
        t: int,
    | 0 <= t <= k && idx == #[trigger] scheduled_slot(t) by {
        if 1 <= idx < 1 + body.len() {
            let j = idx - 1;
            let t = j / 6;
            let u = j % 6;
            assert(j == 6 * t + u && 0 <= u < 6);
            assert(0 <= t <= k);
            assert(h[idx] == body[j]);
            assert(body[j] == block_event(ms, 0, 2, j));
            assert(u == 3);
            assert(idx == scheduled_slot(t));
        } else {
            assert(!(h[idx].attributes is ActivityTaskScheduled));
        }
    }
}

/// Every event of the emitted block sequence is the corresponding block
/// event.
proof fn lemma_mock_events_at(ms: Seq<(Seq<char>, ActivityMockView)>, i: int, base: int, k: int)
    requires
        0 <= i <= k < ms.len(),
        ms[k].1 is Failure,
        forall|j: int| i <= j < k ==> ms[j].1 is Success,
    ensures
        forall|idx: int|
            0 <= idx < 6 * (k + 1 - i) ==> #[trigger] mock_events(ms, i, base)[idx] == block_event(
                ms,
                i,
                base,
                idx,
            ),
    decreases k - i,
{
    lemma_emitted_from_offset(ms, i, k);
    lemma_mock_events_len(ms, i, base);
    if i < k {
        lemma_mock_events_at(ms, i + 1, base + 6, k);
        lemma_emitted_from_offset(ms, i + 1, k);
        lemma_mock_events_len(ms, i + 1, base + 6);
        let block = activity_block(ms[i].0, ms[i].1, i + 1, base);
        assert(mock_events(ms, i, base) == block + mock_events(ms, i + 1, base + 6));
        assert forall|idx: int| 0 <= idx < 6 * (k + 1 - i) implies #[trigger] mock_events(
            ms,
            i,
            base,
        )[idx] == block_event(ms, i, base, idx) by {
            if idx < 6 {
                assert(idx / 6 == 0 && idx % 6 == idx);
                assert(mock_events(ms, i, base)[idx] == block[idx]);
            } else {
                let j = idx - 6;
                assert(mock_events(ms, i, base)[idx] == mock_events(ms, i + 1, base + 6)[j]);
                assert(mock_events(ms, i + 1, base + 6)[j] == block_event(ms, i + 1, base + 6, j));
                assert(j / 6 == idx / 6 - 1 && j % 6 == idx % 6) by {
                    assert(idx == 6 * (j / 6 + 1) + j % 6);
                }
            }
        }
    } else {
        let block = activity_block(ms[k].0, ms[k].1, k + 1, base);
        assert(mock_events(ms, i, base) == block);
        assert forall|idx: int| 0 <= idx < 6 * (k + 1 - i) implies #[trigger] mock_events(
            ms,
            i,
            base,
        )[idx] == block_event(ms, i, base, idx) by {
            assert(idx / 6 == 0 && idx % 6 == idx);
        }
    }
}

/// The position in the synthesized history of block `t`'s activity-resolution
/// (completed or failed) event.
pub open spec fn resolution_slot(t: int) -> int {
    1 + 6 * t + 5
}

/// With only successful mocks, the synthesized history holds the started
/// event, one six-event block per mock, and the final task scheduled/started
/// pair, and block `t`'s resolution event is a completion carrying exactly
/// mock `t`'s payload: what the workflow under test computes during replay is
/// derivable from the mocked payloads alone.
pub proof fn law_all_success_history_carries_payloads(
    workflow_type: Seq<char>,
    input: Seq<Seq<u8>>,
    ms: Seq<(Seq<char>, ActivityMockView)>,
)
    requires
        forall|j: int| 0 <= j < ms.len() ==> ms[j].1 is Success,
    ensures
        spec_history(workflow_type, input, ms).len() == 3 + 6 * ms.len(),
        forall|t: int|
            0 <= t < ms.len() ==> spec_history(workflow_type, input, ms)[#[trigger] resolution_slot(
                t,
            )] == (HistoryEventView {
                event_id: 2 + 6 * t + 5,
                attributes: EventAttributesView::ActivityTaskCompleted {
                    scheduled_event_id: 2 + 6 * t + 3,
                    started_event_id: 2 + 6 * t + 4,
                    result: Some(seq![ms[t].1->Success_0]),
                },
            }),
{
    lemma_all_success_no_failure(ms);
    lemma_emitted_all_success(ms, 0);
    lemma_mock_events_len(ms, 0, 2);
    let body = mock_events(ms, 0, 2);
    assert(body.len() == 6 * ms.len());
    lemma_mock_events_at_all_success(ms, 0, 2);
    let h = spec_history(workflow_type, input, ms);
    assert(h.len() == 3 + 6 * ms.len());
    assert forall|t: int| 0 <= t < ms.len() implies h[#[trigger] resolution_slot(t)]
        == (HistoryEventView {
        event_id: 2 + 6 * t + 5,
        attributes: EventAttributesView::ActivityTaskCompleted {
            scheduled_event_id: 2 + 6 * t + 3,
            started_event_id: 2 + 6 * t + 4,
            result: Some(seq![ms[t].1->Success_0]),
        },
    }) by {
        let idx = 6 * t + 5;
        assert(idx / 6 == t && idx % 6 == 5) by {
            assert(idx == 6 * t + 5);
        }
        assert(h[resolution_slot(t)] == body[idx]);
        assert(body[idx] == block_event(ms, 0, 2, idx));
        assert(block_event(ms, 0, 2, idx) == activity_block(ms[t].0, ms[t].1, t + 1, 2 + 6 * t)[5]);
    }
}

/// Every event of an all-success block sequence is the corresponding block
/// event.
proof fn lemma_mock_events_at_all_success(
    ms: Seq<(Seq<char>, ActivityMockView)>,
    i: int,
    base: int,
)
    requires
        forall|j: int| 0 <= j < ms.len() ==> ms[j].1 is Success,
        0 <= i <= ms.len(),
    ensures
        forall|idx: int|
            0 <= idx < 6 * (ms.len() - i) ==> #[trigger] mock_events(ms, i, base)[idx]
                == block_event(ms, i, base, idx),
    decreases ms.len() - i,
{
    lemma_emitted_all_success(ms, i);
    lemma_mock_events_len(ms, i, base);
    if i < ms.len() {
        lemma_mock_events_at_all_success(ms, i + 1, base + 6);
        lemma_emitted_all_success(ms, i + 1);
        lemma_mock_events_len(ms, i + 1, base + 6);
        let block = activity_block(ms[i].0, ms[i].1, i + 1, base);
        assert(mock_events(ms, i, base) == block + mock_events(ms, i + 1, base + 6));
        assert forall|idx: int| 0 <= idx < 6 * (ms.len() - i) implies #[trigger] mock_events(
            ms,
            i,
            base,
        )[idx] == block_event(ms, i, base, idx) by {
            if idx < 6 {
                assert(idx / 6 == 0 && idx % 6 == idx);
                assert(mock_events(ms, i, base)[idx] == block[idx]);
            } else {
                let j = idx - 6;
                assert(mock_events(ms, i, base)[idx] == mock_events(ms, i + 1, base + 6)[j]);
                assert(mock_events(ms, i + 1, base + 6)[j] == block_event(ms, i + 1, base + 6, j));
                assert(j / 6 == idx / 6 - 1 && j % 6 == idx % 6) by {
                    assert(idx == 6 * (j / 6 + 1) + j % 6);
                }
            }
        }
    }
}

} // verus!
