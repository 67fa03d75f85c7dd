//! Progress snapshots and the sampling side of the progress bus.
//!
//! A sampler runs alongside one session: on every tick it turns the
//! session's current record into one immutable [`ProgressUpdate`], even
//! when nothing changed (a heartbeat). Once it observes a terminal status
//! it emits one final update carrying that status and then stops, so
//! subscribers always receive a definitive last message.

use vstd::prelude::*;

use crate::models::SessionStatus;
use crate::models::string_opt_view;
use crate::session::DiagnosticSession;
use crate::session::SessionModel;

verus! {

/// One immutable progress event, as delivered to push subscribers.
pub struct ProgressUpdate {
    pub session_id: u128,
    /// Completion ratio in thousandths; 1000 exactly when completed.
    pub progress: u32,
    pub status: SessionStatus,
    pub current_task: Option<String>,
    pub message: String,
    pub completed_tasks: usize,
    pub total_tasks: usize,
    pub timestamp: i64,
}

/// Spec-level view of a progress event.
pub struct ProgressUpdateModel {
    pub session_id: u128,
    pub progress: int,
    pub status: SessionStatus,
    pub current_task: Option<Seq<char>>,
    pub message: Seq<char>,
    pub completed_tasks: int,
    pub total_tasks: int,
    pub timestamp: int,
}

impl View for ProgressUpdate {
    type V = ProgressUpdateModel;

    open spec fn view(&self) -> ProgressUpdateModel {
        ProgressUpdateModel {
            session_id: self.session_id,
            progress: self.progress as int,
            status: self.status,
            current_task: string_opt_view(self.current_task),
            message: self.message@,
            completed_tasks: self.completed_tasks as int,
            total_tasks: self.total_tasks as int,
            timestamp: self.timestamp as int,
        }
    }
}

/// The session's error strings joined with `", "`.
pub open spec fn join_errors(errs: Seq<Seq<char>>) -> Seq<char>
    decreases errs.len(),
{
    if errs.len() == 0 {
        Seq::empty()
    } else if errs.len() == 1 {
        errs[0]
    } else {
        join_errors(errs.drop_last()) + ", "@ + errs.last()
    }
}

/// The message carried by a progress event for the given session state.
pub open spec fn spec_status_message(s: SessionModel) -> Seq<char> {
    if s.status == SessionStatus::Completed {
        "Diagnostics completed successfully"@
    } else if s.status == SessionStatus::Failed {
        "Diagnostics failed: "@ + join_errors(s.errors)
    } else if s.status == SessionStatus::Running {
        match s.current_task {
            Some(t) => "Running "@ + t + "..."@,
            None => Seq::empty(),
        }
    } else {
        Seq::empty()
    }
}

/// The progress event sampled from the given session state at `now`.
pub open spec fn spec_update_of(s: SessionModel, now: int) -> ProgressUpdateModel {
    ProgressUpdateModel {
        session_id: s.id,
        progress: s.spec_progress_permille(),
        status: s.status,
        current_task: s.current_task,
        message: spec_status_message(s),
        completed_tasks: s.completed_tasks,
        total_tasks: s.total_tasks,
        timestamp: now,
    }
}

/// Joins the strings of a vector with `", "`.
fn join_error_strings(errs: &Vec<String>) -> (r: String)
    ensures
        r@ == join_errors(crate::models::string_views(errs@)),
{
    let mut out = String::new();
    let n = errs.len();
    for i in 0..n
        invariant
            n == errs@.len(),
            out@ == join_errors(crate::models::string_views(errs@).take(i as int)),
    {
        if i > 0 {
            out.append(", ");
        }
        out.append(errs[i].as_str());
        proof {
            let views = crate::models::string_views(errs@);
            assert(views.take(i + 1).drop_last() =~= views.take(i as int));
            assert(views.take(i + 1).last() == views[i as int]);
            if i == 0 {
                assert(out@ =~= join_errors(views.take(1)));
            }
        }
    }
    proof {
        assert(crate::models::string_views(errs@).take(n as int) =~= crate::models::string_views(
            errs@,
        ));
    }
    out
}

/// The message carried by a progress event for the given session record.
pub fn status_message(s: &DiagnosticSession) -> (r: String)
    ensures
        r@ == spec_status_message(s@),
{
    if s.status == SessionStatus::Completed {
        "Diagnostics completed successfully".to_owned()
    } else if s.status == SessionStatus::Failed {
        let mut m: String = "Diagnostics failed: ".to_owned();
        let joined = join_error_strings(&s.errors);
        m.append(joined.as_str());
        m
    } else if s.status == SessionStatus::Running {
        match &s.current_task {
            Some(t) => {
                let mut m: String = "Running ".to_owned();
                m.append(t.as_str());
                m.append("...");
                m
            },
            None => String::new(),
        }
    } else {
        String::new()
    }
}

/// Builds the progress event for the given session record at `now`.
pub fn make_update(s: &DiagnosticSession, now: i64) -> (r: ProgressUpdate)
    requires
        s@.wf(),
    ensures
        r@ == spec_update_of(s@, now as int),
{
    let current_task = match &s.current_task {
        Some(t) => Some(t.clone()),
        None => None,
    };
    ProgressUpdate {
        session_id: s.id,
        progress: s.progress_permille(),
        status: s.status,
        current_task,
        message: status_message(s),
        completed_tasks: s.completed_tasks,
        total_tasks: s.total_tasks,
        timestamp: now,
    }
}

/// The sampling state of one session's progress bus.
pub struct ProgressSampler {
    pub session_id: u128,
    pub done: bool,
}

impl ProgressSampler {
    /// A live sampler for the given session.
    pub fn new(session_id: u128) -> (r: Self)
        ensures
            r.session_id == session_id,
            !r.done,
    {
        ProgressSampler { session_id, done: false }
    }

    /// One sampling tick: while live, emits exactly one update mirroring
    /// the observed record, and stops — permanently — exactly when that
    /// update carries a terminal status. After stopping it emits nothing,
    /// so the last emitted update is the definitive terminal message.
    pub fn observe(&mut self, s: &DiagnosticSession, now: i64) -> (r: Option<ProgressUpdate>)
        requires
            s@.wf(),
            s@.id == old(self).session_id,
        ensures
            final(self).session_id == old(self).session_id,
            old(self).done ==> r is None && *final(self) == *old(self),
            !old(self).done ==> match r {
                Some(u) => u@ == spec_update_of(s@, now as int) && final(self).done
                    == s@.status.spec_is_terminal(),
                None => false,
            },
    {
        if self.done {
            None
        } else {
            let u = make_update(s, now);
            if u.status.is_terminal() {
                self.done = true;
            }
            Some(u)
        }
    }
}

} // verus!
