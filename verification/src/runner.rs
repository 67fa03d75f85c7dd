//! The runner's decision function.
//!
//! A runner owns one session and drives it strictly sequentially. Between
//! tasks it asks what to do next; the answer observes the cancellation
//! flag at the task boundary, so after a cancel request no further task
//! is ever started.

use vstd::prelude::*;

use crate::session::DiagnosticSession;
use crate::session::SessionModel;
use crate::models::SessionStatus;

verus! {

/// What a running session's runner must do next.
#[derive(Clone, Copy, Debug, PartialEq, Eq, Structural)]
pub enum RunnerAction {
    /// Run the task at this position of the resolved plan (the number of
    /// tasks completed so far).
    RunTask { index: usize },
    /// Every task has run and no cancel arrived: hand the output
    /// directory to the packager.
    Package,
    /// A cancel request is pending: write the terminal `Cancelled` state
    /// without starting another task.
    FinishCancelled,
}

/// The decision taken at a task boundary: a pending cancel wins, then the
/// next unfinished task, then packaging.
pub open spec fn spec_next_action(s: SessionModel) -> RunnerAction {
    if s.cancel_requested {
        RunnerAction::FinishCancelled
    } else if s.completed_tasks < s.total_tasks {
        RunnerAction::RunTask { index: s.completed_tasks as usize }
    } else {
        RunnerAction::Package
    }
}

/// Decides what the runner of this running session does next.
pub fn next_action(s: &DiagnosticSession) -> (r: RunnerAction)
    requires
        s@.wf(),
        s@.status == SessionStatus::Running,
    ensures
        r == spec_next_action(s@),
{
    if s.cancel_requested {
        RunnerAction::FinishCancelled
    } else if s.completed_tasks < s.total_tasks {
        RunnerAction::RunTask { index: s.completed_tasks }
    } else {
        RunnerAction::Package
    }
}

} // verus!
