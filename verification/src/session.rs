//! The session record and its lifecycle state machine.
//!
//! A [`DiagnosticSession`] is mutated only through the transition methods
//! here; each one corresponds to a disjunct of the [`SessionModel::step`]
//! relation, so the state machine laws proved at the bottom of this file
//! carry over to every reachable session record.

use vstd::prelude::*;

use crate::errors::ServiceError;
use crate::models::SessionStatus;
use crate::models::int_opt_view;
use crate::models::string_opt_view;
use crate::models::string_views;

verus! {

/// Mathematical model of a session record.
#[verifier::ext_equal]
pub struct SessionModel {
    pub id: u128,
    pub status: SessionStatus,
    pub current_task: Option<Seq<char>>,
    pub completed_tasks: int,
    pub total_tasks: int,
    pub started_at: int,
    pub completed_at: Option<int>,
    pub output_path: Option<Seq<char>>,
    pub errors: Seq<Seq<char>>,
    pub cancel_requested: bool,
}

/// The error string recorded for one failed task: `"<task>: <cause>"`.
pub open spec fn task_error_message(task: Seq<char>, cause: Seq<char>) -> Seq<char> {
    task + ": "@ + cause
}

impl SessionModel {
    /// Well-formedness of a session record. Established by
    /// [`DiagnosticSession::new`] and preserved by every transition.
    pub open spec fn wf(self) -> bool {
        &&& 0 <= self.completed_tasks <= self.total_tasks
        &&& (self.status == SessionStatus::Completed <==> self.output_path is Some)
        &&& (self.output_path matches Some(p) ==> p.len() > 0)
        &&& (self.completed_at is Some <==> self.status.spec_is_terminal())
        &&& (self.status == SessionStatus::Pending ==> self.completed_tasks == 0
            && !self.cancel_requested && self.current_task is None && self.errors.len() == 0)
        &&& (self.status == SessionStatus::Completed ==> self.completed_tasks == self.total_tasks)
    }

    /// Completion ratio in thousandths. It reaches 1000 exactly when the
    /// session has completed; a session that has run all its tasks but has
    /// not yet been packaged reports 999.
    pub open spec fn spec_progress_permille(self) -> int {
        if self.status == SessionStatus::Completed {
            1000
        } else if self.total_tasks == 0 {
            0
        } else if self.completed_tasks == self.total_tasks {
            999
        } else {
            self.completed_tasks * 1000 / self.total_tasks
        }
    }

    /// Whether a cancel request would be accepted in this state.
    pub open spec fn cancel_allowed(self) -> bool {
        self.status == SessionStatus::Running && !self.cancel_requested
    }

    /// The record after the runner starts: running, start time recorded.
    pub open spec fn with_running(self, now: int) -> SessionModel {
        SessionModel { status: SessionStatus::Running, started_at: now, ..self }
    }

    /// The record after the runner announces the task it is about to run.
    pub open spec fn with_current_task(self, name: Seq<char>) -> SessionModel {
        SessionModel { current_task: Some(name), ..self }
    }

    /// The record after one task has run: the completed count rises by one,
    /// and a failing task appends its formatted error.
    pub open spec fn with_task_done(self, task: Seq<char>, failure: Option<Seq<char>>) -> SessionModel {
        SessionModel {
            completed_tasks: self.completed_tasks + 1,
            errors: match failure {
                Some(cause) => self.errors.push(task_error_message(task, cause)),
                None => self.errors,
            },
            ..self
        }
    }

    /// The record after a cancel request was accepted: only the flag is set;
    /// the runner observes it at the next task boundary.
    pub open spec fn with_cancel_requested(self) -> SessionModel {
        SessionModel { cancel_requested: true, ..self }
    }

    /// The terminal write of a successful run: packaged output recorded.
    pub open spec fn with_completed(self, path: Seq<char>, now: int) -> SessionModel {
        SessionModel {
            status: SessionStatus::Completed,
            output_path: Some(path),
            completed_at: Some(now),
            ..self
        }
    }

    /// The terminal write of a failed run: the fatal cause is appended.
    pub open spec fn with_failed(self, error: Seq<char>, now: int) -> SessionModel {
        SessionModel {
            status: SessionStatus::Failed,
            errors: self.errors.push(error),
            completed_at: Some(now),
            ..self
        }
    }

    /// The terminal write of a cancelled run.
    pub open spec fn with_cancelled(self, now: int) -> SessionModel {
        SessionModel { status: SessionStatus::Cancelled, completed_at: Some(now), ..self }
    }

    /// The transition relation of the session lifecycle: `post` is reachable
    /// from `pre` in one step. Every mutating method of
    /// [`DiagnosticSession`] performs exactly one of these steps.
    pub open spec fn step(pre: SessionModel, post: SessionModel) -> bool {
        ||| (pre.status == SessionStatus::Pending && exists|now: int|
            post == pre.with_running(now))
        ||| (pre.status == SessionStatus::Running && pre.completed_tasks < pre.total_tasks
            && exists|name: Seq<char>| post == pre.with_current_task(name))
        ||| (pre.status == SessionStatus::Running && pre.completed_tasks < pre.total_tasks
            && exists|task: Seq<char>, failure: Option<Seq<char>>|
            post == pre.with_task_done(task, failure))
        ||| (pre.cancel_allowed() && post == pre.with_cancel_requested())
        ||| (pre.status == SessionStatus::Running && pre.completed_tasks == pre.total_tasks
            && exists|path: Seq<char>, now: int|
            path.len() > 0 && post == pre.with_completed(path, now))
        ||| (pre.status == SessionStatus::Running && exists|error: Seq<char>, now: int|
            post == pre.with_failed(error, now))
        ||| (pre.status == SessionStatus::Running && pre.cancel_requested && exists|now: int|
            post == pre.with_cancelled(now))
    }
}

/// One requested, trackable run of a chosen task subset.
///
/// Snapshots of this record are what pollers observe; the runner that owns
/// the session is the only writer.
pub struct DiagnosticSession {
    pub id: u128,
    pub status: SessionStatus,
    pub current_task: Option<String>,
    pub completed_tasks: usize,
    pub total_tasks: usize,
    pub started_at: i64,
    pub completed_at: Option<i64>,
    pub output_path: Option<String>,
    pub errors: Vec<String>,
    pub cancel_requested: bool,
}

impl View for DiagnosticSession {
    type V = SessionModel;

    open spec fn view(&self) -> SessionModel {
        SessionModel {
            id: self.id,
            status: self.status,
            current_task: string_opt_view(self.current_task),
            completed_tasks: self.completed_tasks as int,
            total_tasks: self.total_tasks as int,
            started_at: self.started_at as int,
            completed_at: int_opt_view(self.completed_at),
            output_path: string_opt_view(self.output_path),
            errors: string_views(self.errors@),
            cancel_requested: self.cancel_requested,
        }
    }
}

impl DiagnosticSession {
    /// A fresh pending session for `total_tasks` resolved tasks.
    pub fn new(id: u128, total_tasks: usize, started_at: i64) -> (r: Self)
        ensures
            r@.wf(),
            r@.id == id,
            r@.status == SessionStatus::Pending,
            r@.current_task is None,
            r@.completed_tasks == 0,
            r@.total_tasks == total_tasks as int,
            r@.started_at == started_at as int,
            r@.completed_at is None,
            r@.output_path is None,
            r@.errors =~= Seq::<Seq<char>>::empty(),
            r@.cancel_requested == false,
    {
        let r = DiagnosticSession {
            id,
            status: SessionStatus::Pending,
            current_task: None,
            completed_tasks: 0,
            total_tasks,
            started_at,
            completed_at: None,
            output_path: None,
            errors: Vec::new(),
            cancel_requested: false,
        };
        proof {
            assert(r@.errors =~= Seq::<Seq<char>>::empty());
        }
        r
    }

    /// An independent copy whose model is the same.
    pub fn snapshot(&self) -> (r: Self)
        ensures
            r@ == self@,
    {
        let current_task = match &self.current_task {
            Some(t) => Some(t.clone()),
            None => None,
        };
        let output_path = match &self.output_path {
            Some(p) => Some(p.clone()),
            None => None,
        };
        let mut errors: Vec<String> = Vec::new();
        let n = self.errors.len();
        for i in 0..n
            invariant
                n == self.errors.len(),
                errors@.len() == i,
                forall|k: int| 0 <= k < i ==> errors@[k]@ == self.errors@[k]@,
        {
            errors.push(self.errors[i].clone());
        }
        let r = DiagnosticSession {
            id: self.id,
            status: self.status,
            current_task,
            completed_tasks: self.completed_tasks,
            total_tasks: self.total_tasks,
            started_at: self.started_at,
            completed_at: self.completed_at,
            output_path,
            errors,
            cancel_requested: self.cancel_requested,
        };
        proof {
            assert(string_views(r.errors@) =~= string_views(self.errors@));
            assert(r@ =~= self@);
        }
        r
    }

    /// Completion ratio in thousandths; 1000 exactly for a completed session.
    pub fn progress_permille(&self) -> (r: u32)
        requires
            self@.wf(),
        ensures
            r as int == self@.spec_progress_permille(),
    {
        if self.status == SessionStatus::Completed {
            1000
        } else if self.total_tasks == 0 {
            0
        } else if self.completed_tasks == self.total_tasks {
            999
        } else {
            let num: u128 = (self.completed_tasks as u128) * 1000;
            let div: u128 = num / (self.total_tasks as u128);
            proof {
                lemma_progress_below_full(
                    self.completed_tasks as int,
                    self.total_tasks as int,
                );
            }
            div as u32
        }
    }

    /// Pending to running; records the start time.
    pub fn start_running(&mut self, now: i64)
        requires
            old(self)@.status == SessionStatus::Pending,
        ensures
            final(self)@ == old(self)@.with_running(now as int),
            SessionModel::step(old(self)@, final(self)@),
    {
        self.status = SessionStatus::Running;
        self.started_at = now;
        proof {
            assert(final(self)@ =~= old(self)@.with_running(now as int));
        }
    }

    /// Announces the task the runner is about to execute.
    pub fn begin_task(&mut self, name: String)
        requires
            old(self)@.status == SessionStatus::Running,
            old(self)@.completed_tasks < old(self)@.total_tasks,
        ensures
            final(self)@ == old(self)@.with_current_task(name@),
            SessionModel::step(old(self)@, final(self)@),
    {
        self.current_task = Some(name);
        proof {
            assert(final(self)@ =~= old(self)@.with_current_task(name@));
        }
    }

    /// Records the outcome of one executed task: the completed count rises,
    /// and a failure appends `"<task>: <cause>"` to the error list without
    /// stopping the session.
    pub fn finish_task(&mut self, task_name: &str, failure: Option<String>)
        requires
            old(self)@.status == SessionStatus::Running,
            old(self)@.completed_tasks < old(self)@.total_tasks,
        ensures
            final(self)@ == old(self)@.with_task_done(task_name@, string_opt_view(failure)),
            SessionModel::step(old(self)@, final(self)@),
    {
        broadcast use crate::models::lemma_string_views_push;

        match failure {
            Some(cause) => {
                let mut msg: String = task_name.to_owned();
                msg.append(": ");
                msg.append(cause.as_str());
                self.errors.push(msg);
            },
            None => {},
        }
        self.completed_tasks = self.completed_tasks + 1;
        proof {
            assert(final(self)@ =~= old(self)@.with_task_done(
                task_name@,
                string_opt_view(failure),
            ));
        }
    }

    /// Sets the cancellation flag, accepted only while the session is
    /// running and not yet flagged; rejected otherwise. The runner observes
    /// the flag at the next task boundary.
    pub fn request_cancel(&mut self) -> (r: Result<(), ServiceError>)
        ensures
            r is Ok <==> old(self)@.cancel_allowed(),
            r is Ok ==> final(self)@ == old(self)@.with_cancel_requested()
                && SessionModel::step(old(self)@, final(self)@),
            r is Err ==> *final(self) == *old(self) && r == Err::<(), ServiceError>(
                ServiceError::InvalidTransition,
            ),
    {
        if self.status == SessionStatus::Running && !self.cancel_requested {
            self.cancel_requested = true;
            proof {
                assert(final(self)@ =~= old(self)@.with_cancel_requested());
            }
            Ok(())
        } else {
            Err(ServiceError::InvalidTransition)
        }
    }

    /// The terminal write of a successful run: every task ran and the
    /// packager produced an archive.
    pub fn finish_completed(&mut self, output_path: String, now: i64)
        requires
            old(self)@.status == SessionStatus::Running,
            old(self)@.completed_tasks == old(self)@.total_tasks,
            output_path@.len() > 0,
        ensures
            final(self)@ == old(self)@.with_completed(output_path@, now as int),
            SessionModel::step(old(self)@, final(self)@),
    {
        let ghost path = output_path@;
        self.status = SessionStatus::Completed;
        self.output_path = Some(output_path);
        self.completed_at = Some(now);
        proof {
            assert(final(self)@ =~= old(self)@.with_completed(path, now as int));
        }
    }

    /// The terminal write of a failed run: the fatal cause (packaging or
    /// setup) is appended to the error list.
    pub fn finish_failed(&mut self, error: String, now: i64)
        requires
            old(self)@.status == SessionStatus::Running,
        ensures
            final(self)@ == old(self)@.with_failed(error@, now as int),
            SessionModel::step(old(self)@, final(self)@),
    {
        broadcast use crate::models::lemma_string_views_push;

        self.status = SessionStatus::Failed;
        self.errors.push(error);
        self.completed_at = Some(now);
        proof {
            assert(final(self)@ =~= old(self)@.with_failed(error@, now as int));
        }
    }

    /// The terminal write of a cancelled run: already completed tasks stay
    /// recorded, nothing is rolled back.
    pub fn finish_cancelled(&mut self, now: i64)
        requires
            old(self)@.status == SessionStatus::Running,
            old(self)@.cancel_requested,
        ensures
            final(self)@ == old(self)@.with_cancelled(now as int),
            SessionModel::step(old(self)@, final(self)@),
    {
        self.status = SessionStatus::Cancelled;
        self.completed_at = Some(now);
        proof {
            assert(final(self)@ =~= old(self)@.with_cancelled(now as int));
        }
    }
}

/// A run of the state machine: adjacent records are related by one step.
pub open spec fn steps_from(tr: Seq<SessionModel>) -> bool {
    forall|i: int|
        0 <= i < tr.len() - 1 ==> SessionModel::step(tr[i], #[trigger] tr[i + 1])
}

/// Every step preserves well-formedness; with [`DiagnosticSession::new`]
/// this gives the invariant `completed_tasks <= total_tasks` (and the rest
/// of [`SessionModel::wf`]) for every session at every point in time.
pub proof fn lemma_step_preserves_wf(pre: SessionModel, post: SessionModel)
    requires
        pre.wf(),
        SessionModel::step(pre, post),
    ensures
        post.wf(),
{
}

/// Well-formedness holds at every point of a run that starts well-formed.
pub proof fn lemma_wf_along_run(tr: Seq<SessionModel>, k: int)
    requires
        tr.len() > 0,
        tr[0].wf(),
        steps_from(tr),
        0 <= k < tr.len(),
    ensures
        tr[k].wf(),
    decreases k,
{
    if k > 0 {
        lemma_wf_along_run(tr, k - 1);
        assert(SessionModel::step(tr[k - 1], tr[k - 1 + 1]));
        lemma_step_preserves_wf(tr[k - 1], tr[k]);
    }
}

/// No step ever leaves a terminal state: `Completed`, `Failed` and
/// `Cancelled` are absorbing.
pub proof fn lemma_terminal_no_step(pre: SessionModel, post: SessionModel)
    requires
        SessionModel::step(pre, post),
    ensures
        !pre.status.spec_is_terminal(),
{
}

/// In a run of the state machine, only the last record can be terminal.
pub proof fn lemma_terminal_is_final(tr: Seq<SessionModel>, k: int)
    requires
        steps_from(tr),
        0 <= k < tr.len() - 1,
    ensures
        !tr[k].status.spec_is_terminal(),
{
    lemma_terminal_no_step(tr[k], tr[k + 1]);
}

/// The progress of a well-formed session reads 1000 exactly when its
/// status is `Completed`, and its output path is set exactly then.
pub proof fn lemma_progress_full_iff_completed(s: SessionModel)
    requires
        s.wf(),
    ensures
        s.spec_progress_permille() == 1000 <==> s.status == SessionStatus::Completed,
        s.output_path is Some <==> s.status == SessionStatus::Completed,
{
    if s.status != SessionStatus::Completed && s.total_tasks != 0
        && s.completed_tasks != s.total_tasks {
        lemma_progress_below_full(s.completed_tasks, s.total_tasks);
    }
}

/// One step taken while the session is running never lowers its progress.
pub proof fn lemma_progress_monotone_step(pre: SessionModel, post: SessionModel)
    requires
        pre.wf(),
        SessionModel::step(pre, post),
        pre.status == SessionStatus::Running,
        post.status == SessionStatus::Running,
    ensures
        pre.spec_progress_permille() <= post.spec_progress_permille(),
{
    if post.completed_tasks == pre.completed_tasks + 1 {
        let k = pre.completed_tasks;
        let n = pre.total_tasks;
        if k + 1 < n {
            lemma_progress_below_full(k, n);
            lemma_progress_below_full(k + 1, n);
            assert(k * 1000 / n <= (k + 1) * 1000 / n) by (nonlinear_arith)
                requires
                    0 <= k && k + 1 < n,
            ;
        } else if 0 <= k < n {
            lemma_progress_below_full(k, n);
        }
    }
}

/// While a session remains running, successive reads of its progress are
/// non-decreasing: along any run of the state machine, any two running
/// records in order report non-decreasing progress.
pub proof fn lemma_progress_monotone_while_running(tr: Seq<SessionModel>, i: int, j: int)
    requires
        tr.len() > 0,
        tr[0].wf(),
        steps_from(tr),
        0 <= i <= j < tr.len(),
        tr[i].status == SessionStatus::Running,
        tr[j].status == SessionStatus::Running,
    ensures
        tr[i].spec_progress_permille() <= tr[j].spec_progress_permille(),
    decreases j - i,
{
    if i < j {
        if tr[i + 1].status.spec_is_terminal() {
            if i + 1 < j {
                lemma_terminal_is_final(tr, i + 1);
            }
        } else {
            lemma_wf_along_run(tr, i);
            lemma_progress_monotone_step(tr[i], tr[i + 1]);
            lemma_progress_monotone_while_running(tr, i + 1, j);
        }
    }
}

/// Cancellation is accepted at most once: after an accepted cancel request
/// the session no longer admits one, so a second request in a row is
/// rejected as an invalid transition.
pub proof fn lemma_cancel_accepted_once(s: SessionModel)
    requires
        s.cancel_allowed(),
    ensures
        !s.with_cancel_requested().cancel_allowed(),
{
}

/// While tasks remain, the completion ratio stays below 1000.
proof fn lemma_progress_below_full(completed: int, total: int)
    requires
        0 <= completed < total,
    ensures
        0 <= completed * 1000 / total < 1000,
        completed * 1000 / total <= 999,
{
    assert(completed * 1000 <= (total - 1) * 1000) by (nonlinear_arith)
        requires
            completed <= total - 1,
    ;
    assert((total - 1) * 1000 / total < 1000) by (nonlinear_arith)
        requires
            total >= 1,
    ;
    assert(completed * 1000 / total <= (total - 1) * 1000 / total) by (nonlinear_arith)
        requires
            completed * 1000 <= (total - 1) * 1000 && total >= 1,
    ;
    assert(completed * 1000 / total >= 0) by (nonlinear_arith)
        requires
            completed >= 0 && total >= 1,
    ;
}

} // verus!
