//! Capturing the terminal outcome of an execution loop.
//!
//! The execution engine reports back through two callback paths: a completion
//! interceptor that sees each batch of commands the workflow emitted, and a
//! task-failure interceptor that sees failures surfaced by the engine itself.
//! Both record into one shared `CapturedResult`; the first write to each
//! field wins, and a single priority order decides which field is
//! authoritative when the result is read.

use vstd::prelude::*;
use crate::payload::Payloads;
use crate::error::{FailureDetail, WorkflowFailure, WorkflowFailureView};

verus! {

/// One command observed in a batch emitted by the workflow under test.
#[derive(Debug)]
pub enum ObservedCommand {
    /// A complete-workflow command, with its optional result payloads.
    CompleteWorkflow(Option<Payloads>),
    /// A fail-workflow command, with its optional failure detail.
    FailWorkflow(Option<FailureDetail>),
    /// Any other command kind (schedule-activity and the like), ignored.
    Other,
}

/// Mathematical model of an [`ObservedCommand`].
#[verifier::ext_equal]
pub enum ObservedCommandView {
    /// A complete-workflow command.
    CompleteWorkflow(Option<Seq<Seq<u8>>>),
    /// A fail-workflow command.
    FailWorkflow(Option<Seq<char>>),
    /// Any other command kind.
    Other,
}

impl View for ObservedCommand {
    type V = ObservedCommandView;

    open spec fn view(&self) -> ObservedCommandView {
        match self {
            ObservedCommand::CompleteWorkflow(p) => ObservedCommandView::CompleteWorkflow(
                match p {
                    Some(ps) => Some(ps@),
                    None => None,
                },
            ),
            ObservedCommand::FailWorkflow(f) => ObservedCommandView::FailWorkflow(
                match f {
                    Some(d) => Some(d@),
                    None => None,
                },
            ),
            ObservedCommand::Other => ObservedCommandView::Other,
        }
    }
}

/// The view of a command batch.
pub open spec fn commands_view(v: Seq<ObservedCommand>) -> Seq<ObservedCommandView> {
    v.map_values(|c: ObservedCommand| c@)
}

/// The one terminal outcome observed during execution, a field per origin.
#[derive(Debug)]
pub struct CapturedResult {
    /// Set when a complete-workflow command is observed.
    pub success: Option<Option<Payloads>>,
    /// Set when a fail-workflow command is observed.
    pub command_failure: Option<WorkflowFailure>,
    /// Set when the engine surfaces a task-level failure.
    pub wft_failure: Option<WorkflowFailure>,
}

/// Mathematical model of a [`CapturedResult`].
#[verifier::ext_equal]
pub struct CapturedResultView {
    /// The recorded success payloads, if a completion was observed.
    pub success: Option<Option<Seq<Seq<u8>>>>,
    /// The recorded explicit failure, if a fail-workflow command was observed.
    pub command_failure: Option<WorkflowFailureView>,
    /// The recorded task-level failure, if the engine surfaced one.
    pub wft_failure: Option<WorkflowFailureView>,
}

impl View for CapturedResult {
    type V = CapturedResultView;

    open spec fn view(&self) -> CapturedResultView {
        CapturedResultView {
            success: match self.success {
                Some(None) => Some(None),
                Some(Some(p)) => Some(Some(p@)),
                None => None,
            },
            command_failure: match self.command_failure {
                Some(f) => Some(f@),
                None => None,
            },
            wft_failure: match self.wft_failure {
                Some(f) => Some(f@),
                None => None,
            },
        }
    }
}

/// The capture before anything was observed.
pub open spec fn empty_capture() -> CapturedResultView {
    CapturedResultView { success: None, command_failure: None, wft_failure: None }
}

/// Whether some terminal outcome has been recorded; once true, the one-shot
/// signal has been raised and the race resolves.
pub open spec fn capture_terminal(cap: CapturedResultView) -> bool {
    cap.success is Some || cap.command_failure is Some || cap.wft_failure is Some
}

/// The failure recorded for a fail-workflow command carrying `f`: its message,
/// or a fixed placeholder when the command carries no detail.
pub open spec fn failure_of_command(f: Option<Seq<char>>) -> WorkflowFailureView {
    WorkflowFailureView {
        message: match f {
            Some(m) => m,
            None => "workflow failed (no message)"@,
        },
        failure: f,
        is_wft_failure: false,
    }
}

/// The failure recorded for a task-level failure carrying `f`.
pub open spec fn failure_of_task(f: Option<Seq<char>>) -> WorkflowFailureView {
    WorkflowFailureView {
        message: match f {
            Some(m) => m,
            None => "WFT failure (no message)"@,
        },
        failure: f,
        is_wft_failure: true,
    }
}

/// What recording one observed command does to the capture: completions and
/// explicit failures set their field if it is still empty (first write wins);
/// other commands change nothing.
pub open spec fn record_command(cap: CapturedResultView, cmd: ObservedCommandView) -> CapturedResultView {
    match cmd {
        ObservedCommandView::CompleteWorkflow(p) => {
            if cap.success is None {
                CapturedResultView { success: Some(p), ..cap }
            } else {
                cap
            }
        },
        ObservedCommandView::FailWorkflow(f) => {
            if cap.command_failure is None {
                CapturedResultView { command_failure: Some(failure_of_command(f)), ..cap }
            } else {
                cap
            }
        },
        ObservedCommandView::Other => cap,
    }
}

/// Recording a whole batch, command by command, in order.
pub open spec fn record_batch(cap: CapturedResultView, cmds: Seq<ObservedCommandView>) -> CapturedResultView
    decreases cmds.len(),
{
    if cmds.len() == 0 {
        cap
    } else {
        record_batch(record_command(cap, cmds[0]), cmds.drop_first())
    }
}

/// What recording a task-level failure does to the capture.
pub open spec fn record_task_failure(cap: CapturedResultView, f: Option<Seq<char>>) -> CapturedResultView {
    if cap.wft_failure is None {
        CapturedResultView { wft_failure: Some(failure_of_task(f)), ..cap }
    } else {
        cap
    }
}

impl CapturedResult {
    /// A capture with nothing recorded yet.
    pub fn new() -> (r: Self)
        ensures
            r@ == empty_capture(),
    {
        CapturedResult { success: None, command_failure: None, wft_failure: None }
    }

    /// The completion interceptor's work for one observed command.
    pub fn record_command(&mut self, cmd: &ObservedCommand)
        ensures
            final(self)@ == record_command(old(self)@, cmd@),
    {
        match cmd {
            ObservedCommand::CompleteWorkflow(p) => {
                if self.success.is_none() {
                    self.success = Some(
                        match p {
                            Some(ps) => Some(ps.clone()),
                            None => None,
                        },
                    );
                }
            },
            ObservedCommand::FailWorkflow(f) => {
                if self.command_failure.is_none() {
                    let (message, detail) = match f {
                        Some(d) => (d.message.clone(), Some(d.clone())),
                        None => (String::from_str("workflow failed (no message)"), None),
                    };
                    self.command_failure = Some(
                        WorkflowFailure { message, failure: detail, is_wft_failure: false },
                    );
                }
            },
            ObservedCommand::Other => {},
        }
    }

    /// The completion interceptor's work for one batch of commands.
    pub fn record_batch(&mut self, cmds: &Vec<ObservedCommand>)
        ensures
            final(self)@ == record_batch(old(self)@, commands_view(cmds@)),
    {
        let ghost all = commands_view(cmds@);
        proof {
            assert(all.skip(0) =~= all);
        }
        let n = cmds.len();
        let mut i: usize = 0;
        while i < n
            invariant
                n == cmds.len(),
                all == commands_view(cmds@),
                0 <= i <= n,
                record_batch(old(self)@, all) == record_batch(self@, all.skip(i as int)),
            decreases n - i,
        {
            let ghost before = self@;
            self.record_command(&cmds[i]);
            proof {
                assert(all.skip(i as int)[0] == cmds@[i as int]@);
                assert(all.skip(i as int).drop_first() =~= all.skip(i + 1));
                assert(record_batch(before, all.skip(i as int)) == record_batch(
                    self@,
                    all.skip(i + 1),
                ));
            }
            i = i + 1;
        }
        proof {
            assert(all.skip(n as int) =~= Seq::<ObservedCommandView>::empty());
        }
    }

    /// The task-failure interceptor's work.
    pub fn record_task_failure(&mut self, failure: &Option<FailureDetail>)
        ensures
            final(self)@ == record_task_failure(old(self)@, match failure {
                Some(d) => Some(d@),
                None => None,
            }),
    {
        if self.wft_failure.is_none() {
            let (message, detail) = match failure {
                Some(d) => (d.message.clone(), Some(d.clone())),
                None => (String::from_str("WFT failure (no message)"), None),
            };
            self.wft_failure = Some(
                WorkflowFailure { message, failure: detail, is_wft_failure: true },
            );
        }
    }

    /// Whether some terminal outcome has been recorded.
    pub fn is_terminal(&self) -> (r: bool)
        ensures
            r == capture_terminal(self@),
    {
        self.success.is_some() || self.command_failure.is_some() || self.wft_failure.is_some()
    }
}

} // verus!
