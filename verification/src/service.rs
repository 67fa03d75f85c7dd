//! The orchestration facade: the only API surface of the engine.
//!
//! A service owns the session store. Starting a session resolves the
//! requested task ids, registers a fresh pending record and hands back
//! both the initial snapshot and the resolved plan; the caller then
//! drives the session's runner through the step methods here, performing
//! the actual collector and packager calls between steps.

use vstd::prelude::*;

use crate::catalog;
use crate::errors::ServiceError;
use crate::models::DiagnosticRequest;
use crate::models::SessionStatus;
use crate::models::descriptor_views;
use crate::models::string_views;
use crate::runner::RunnerAction;
use crate::runner::next_action;
use crate::runner::spec_next_action;
use crate::session::DiagnosticSession;
use crate::session::SessionModel;
use crate::store::SessionStore;

verus! {

/// Relies on `uuid::Uuid::new_v4` and `Uuid::as_u128`: a freshly drawn
/// random version-4 id, returned as its 128-bit value. Nothing is assumed
/// of the draw; callers guard against collisions themselves.
#[verifier::external_body]
fn new_session_id() -> u128 {
    uuid::Uuid::new_v4().as_u128()
}

/// Relies on `chrono::Utc::now` and `DateTime::timestamp_millis`: the
/// current wall-clock time as milliseconds since the Unix epoch. Nothing
/// is assumed of the value read from the clock.
#[verifier::external_body]
fn now_millis() -> i64 {
    chrono::Utc::now().timestamp_millis()
}

/// The store after a write to one session's slot: the record under `id`
/// now models `m`, and every other slot is exactly as it was.
pub open spec fn updated_to(
    pre: Map<u128, DiagnosticSession>,
    post: Map<u128, DiagnosticSession>,
    id: u128,
    m: SessionModel,
) -> bool {
    &&& pre.contains_key(id)
    &&& post.contains_key(id)
    &&& post[id]@ == m
    &&& post.dom() == pre.dom()
    &&& forall|k: u128| #[trigger] pre.contains_key(k) && k != id ==> post[k] == pre[k]
}

/// The session orchestrator: creates, tracks, advances and cancels
/// sessions.
pub struct DiagnosticService {
    sessions: SessionStore,
}

impl View for DiagnosticService {
    type V = Map<u128, DiagnosticSession>;

    closed spec fn view(&self) -> Map<u128, DiagnosticSession> {
        self.sessions@
    }
}

impl DiagnosticService {
    /// Every tracked session is well-formed and filed under its own id.
    pub closed spec fn wf(&self) -> bool {
        self.sessions.wf()
    }

    /// A service tracking no sessions.
    pub fn new() -> (r: Self)
        ensures
            r@ == Map::<u128, DiagnosticSession>::empty(),
            r.wf(),
    {
        DiagnosticService { sessions: SessionStore::new() }
    }

    /// Every task visible at the given privilege level, presented with
    /// its derived id, description and category, in catalog order.
    pub fn get_available_tasks(&self, is_admin: bool) -> (r: Vec<crate::models::DiagnosticTask>)
        ensures
            descriptor_views(r@) =~= catalog::spec_visible_tasks(is_admin).map_values(
                |t: catalog::TaskEntryModel| catalog::spec_descriptor_of(t),
            ),
    {
        let visible = catalog::get_filtered_tasks(is_admin);
        let mut out: Vec<crate::models::DiagnosticTask> = Vec::new();
        let n = visible.len();
        for i in 0..n
            invariant
                n == visible@.len(),
                catalog::task_views(visible@) =~= catalog::spec_visible_tasks(is_admin),
                descriptor_views(out@) =~= catalog::task_views(visible@).take(i as int).map_values(
                    |t: catalog::TaskEntryModel| catalog::spec_descriptor_of(t),
                ),
        {
            let d = catalog::descriptor_of(&visible[i]);
            out.push(d);
            proof {
                let f = |t: catalog::TaskEntryModel| catalog::spec_descriptor_of(t);
                let tv = catalog::task_views(visible@);
                assert(tv.take(i + 1) =~= tv.take(i as int).push(tv[i as int]));
                assert(tv.take(i as int).push(tv[i as int]).map_values(f) =~= tv.take(
                    i as int,
                ).map_values(f).push(f(tv[i as int])));
                assert(descriptor_views(out@) =~= tv.take(i + 1).map_values(f));
            }
        }
        proof {
            assert(catalog::task_views(visible@).take(n as int) =~= catalog::task_views(visible@));
        }
        out
    }

    /// Validates and registers a new session for the request: resolves the
    /// requested ids at the given privilege level, allocates a fresh id and
    /// files a pending record. Returns the initial snapshot together with
    /// the resolved plan the runner must execute, in catalog order. An
    /// empty request is legal and yields an empty plan. Fails only if the
    /// freshly drawn id collides with a tracked session.
    pub fn start_diagnostics(&mut self, request: DiagnosticRequest, is_admin: bool) -> (r: Result<
        (DiagnosticSession, Vec<catalog::DiagnosticTask>),
        ServiceError,
    >)
        requires
            old(self).wf(),
        ensures
            final(self).wf(),
            match r {
                Ok((s, plan)) => {
                    &&& s@.wf()
                    &&& s@.status == SessionStatus::Pending
                    &&& s@.completed_tasks == 0
                    &&& s@.errors.len() == 0
                    &&& s@.cancel_requested == false
                    &&& s@.current_task is None
                    &&& s@.output_path is None
                    &&& s@.completed_at is None
                    &&& catalog::task_views(plan@) == catalog::spec_resolved_tasks(
                        string_views(request.selected_tasks@),
                        is_admin,
                    )
                    &&& s@.total_tasks == plan@.len()
                    &&& !old(self)@.contains_key(s@.id)
                    &&& final(self)@.contains_key(s@.id)
                    &&& final(self)@[s@.id]@ == s@
                    &&& final(self)@.dom() == old(self)@.dom().insert(s@.id)
                    &&& forall|k: u128|
                        #[trigger] old(self)@.contains_key(k) ==> final(self)@[k] == old(self)@[k]
                },
                Err(e) => e == ServiceError::DuplicateSession && final(self)@ == old(self)@,
            },
    {
        let resolved = catalog::resolve_task_ids(&request.selected_tasks, is_admin);
        let id = new_session_id();
        let now = now_millis();
        let s = DiagnosticSession::new(id, resolved.len(), now);
        let stored = s.snapshot();
        match self.sessions.insert(stored) {
            Ok(()) => {
                proof {
                    assert(final(self)@.dom() =~= old(self)@.dom().insert(s@.id));
                }
                Ok((s, resolved))
            },
            Err(_) => Err(ServiceError::DuplicateSession),
        }
    }

    /// An independent snapshot of the session with the given id.
    pub fn get_session(&self, session_id: u128) -> (r: Option<DiagnosticSession>)
        ensures
            match r {
                Some(s) => self@.contains_key(session_id) && s@ == self@[session_id]@ && (
                self.wf() ==> s@.wf()),
                None => !self@.contains_key(session_id),
            },
    {
        self.sessions.get(session_id)
    }

    /// Requests cancellation of a running session: sets the cancellation
    /// flag, which its runner observes at the next task boundary. Rejected
    /// for an unknown id, for a session that is not running, and for a
    /// session already flagged — so a second request in a row always
    /// returns `InvalidTransition`.
    pub fn cancel_session(&mut self, session_id: u128) -> (r: Result<(), ServiceError>)
        requires
            old(self).wf(),
        ensures
            final(self).wf(),
            !old(self)@.contains_key(session_id) ==> r == Err::<(), ServiceError>(
                ServiceError::SessionNotFound,
            ) && final(self)@ == old(self)@,
            old(self)@.contains_key(session_id) && !old(self)@[session_id]@.cancel_allowed()
                ==> r == Err::<(), ServiceError>(ServiceError::InvalidTransition) && final(self)@
                == old(self)@,
            old(self)@.contains_key(session_id) && old(self)@[session_id]@.cancel_allowed() ==> r
                is Ok && updated_to(
                old(self)@,
                final(self)@,
                session_id,
                old(self)@[session_id]@.with_cancel_requested(),
            ),
    {
        let mut s = match self.sessions.get(session_id) {
            Some(s) => s,
            None => {
                return Err(ServiceError::SessionNotFound);
            },
        };
        match s.request_cancel() {
            Ok(()) => {
                match self.sessions.replace(s) {
                    Ok(()) => {
                        proof {
                            assert(final(self)@.dom() =~= old(self)@.dom());
                        }
                        Ok(())
                    },
                    Err(_) => unreached(),
                }
            },
            Err(e) => Err(e),
        }
    }

    /// Moves a pending session to running and records its start time.
    pub fn mark_running(&mut self, session_id: u128) -> (r: Result<(), ServiceError>)
        requires
            old(self).wf(),
        ensures
            final(self).wf(),
            !old(self)@.contains_key(session_id) ==> r == Err::<(), ServiceError>(
                ServiceError::SessionNotFound,
            ) && final(self)@ == old(self)@,
            old(self)@.contains_key(session_id) && old(self)@[session_id]@.status
                != SessionStatus::Pending ==> r == Err::<(), ServiceError>(
                ServiceError::InvalidTransition,
            ) && final(self)@ == old(self)@,
            old(self)@.contains_key(session_id) && old(self)@[session_id]@.status
                == SessionStatus::Pending ==> r is Ok && exists|now: int|
                #[trigger] updated_to(
                    old(self)@,
                    final(self)@,
                    session_id,
                    old(self)@[session_id]@.with_running(now),
                ),
    {
        let mut s = match self.sessions.get(session_id) {
            Some(s) => s,
            None => {
                return Err(ServiceError::SessionNotFound);
            },
        };
        if s.status != SessionStatus::Pending {
            return Err(ServiceError::InvalidTransition);
        }
        let now = now_millis();
        s.start_running(now);
        proof {
            crate::session::lemma_step_preserves_wf(
                old(self)@[session_id]@,
                s@,
            );
        }
        match self.sessions.replace(s) {
            Ok(()) => {
                proof {
                    assert(final(self)@.dom() =~= old(self)@.dom());
                    assert(updated_to(
                        old(self)@,
                        final(self)@,
                        session_id,
                        old(self)@[session_id]@.with_running(now as int),
                    ));
                }
                Ok(())
            },
            Err(_) => unreached(),
        }
    }

    /// What the runner of the given running session must do next; a
    /// pending cancellation is seen here, before another collector starts.
    pub fn next_action(&self, session_id: u128) -> (r: Result<RunnerAction, ServiceError>)
        requires
            self.wf(),
        ensures
            !self@.contains_key(session_id) ==> r == Err::<RunnerAction, ServiceError>(
                ServiceError::SessionNotFound,
            ),
            self@.contains_key(session_id) && self@[session_id]@.status != SessionStatus::Running
                ==> r == Err::<RunnerAction, ServiceError>(ServiceError::InvalidTransition),
            self@.contains_key(session_id) && self@[session_id]@.status == SessionStatus::Running
                ==> r == Ok::<RunnerAction, ServiceError>(spec_next_action(self@[session_id]@)),
    {
        let s = match self.sessions.get(session_id) {
            Some(s) => s,
            None => {
                return Err(ServiceError::SessionNotFound);
            },
        };
        if s.status != SessionStatus::Running {
            return Err(ServiceError::InvalidTransition);
        }
        Ok(next_action(&s))
    }

    /// Announces the task the runner is about to execute.
    pub fn begin_task(&mut self, session_id: u128, name: String) -> (r: Result<(), ServiceError>)
        requires
            old(self).wf(),
        ensures
            final(self).wf(),
            !old(self)@.contains_key(session_id) ==> r == Err::<(), ServiceError>(
                ServiceError::SessionNotFound,
            ) && final(self)@ == old(self)@,
            old(self)@.contains_key(session_id) && !(old(self)@[session_id]@.status
                == SessionStatus::Running && old(self)@[session_id]@.completed_tasks < old(
                self,
            )@[session_id]@.total_tasks) ==> r == Err::<(), ServiceError>(
                ServiceError::InvalidTransition,
            ) && final(self)@ == old(self)@,
            old(self)@.contains_key(session_id) && old(self)@[session_id]@.status
                == SessionStatus::Running && old(self)@[session_id]@.completed_tasks < old(
                self,
            )@[session_id]@.total_tasks ==> r is Ok && updated_to(
                old(self)@,
                final(self)@,
                session_id,
                old(self)@[session_id]@.with_current_task(name@),
            ),
    {
        let mut s = match self.sessions.get(session_id) {
            Some(s) => s,
            None => {
                return Err(ServiceError::SessionNotFound);
            },
        };
        if !(s.status == SessionStatus::Running && s.completed_tasks < s.total_tasks) {
            return Err(ServiceError::InvalidTransition);
        }
        s.begin_task(name);
        proof {
            crate::session::lemma_step_preserves_wf(old(self)@[session_id]@, s@);
        }
        match self.sessions.replace(s) {
            Ok(()) => {
                proof {
                    assert(final(self)@.dom() =~= old(self)@.dom());
                }
                Ok(())
            },
            Err(_) => unreached(),
        }
    }

    /// Records the outcome of one executed task: the completed count
    /// rises; a failure appends `"<task>: <cause>"` to the session's
    /// errors and the session continues — a collector failure is never
    /// fatal.
    pub fn finish_task(
        &mut self,
        session_id: u128,
        task_name: &str,
        failure: Option<String>,
    ) -> (r: Result<(), ServiceError>)
        requires
            old(self).wf(),
        ensures
            final(self).wf(),
            !old(self)@.contains_key(session_id) ==> r == Err::<(), ServiceError>(
                ServiceError::SessionNotFound,
            ) && final(self)@ == old(self)@,
            old(self)@.contains_key(session_id) && !(old(self)@[session_id]@.status
                == SessionStatus::Running && old(self)@[session_id]@.completed_tasks < old(
                self,
            )@[session_id]@.total_tasks) ==> r == Err::<(), ServiceError>(
                ServiceError::InvalidTransition,
            ) && final(self)@ == old(self)@,
            old(self)@.contains_key(session_id) && old(self)@[session_id]@.status
                == SessionStatus::Running && old(self)@[session_id]@.completed_tasks < old(
                self,
            )@[session_id]@.total_tasks ==> r is Ok && updated_to(
                old(self)@,
                final(self)@,
                session_id,
                old(self)@[session_id]@.with_task_done(
                    task_name@,
                    crate::models::string_opt_view(failure),
                ),
            ),
    {
        let mut s = match self.sessions.get(session_id) {
            Some(s) => s,
            None => {
                return Err(ServiceError::SessionNotFound);
            },
        };
        if !(s.status == SessionStatus::Running && s.completed_tasks < s.total_tasks) {
            return Err(ServiceError::InvalidTransition);
        }
        s.finish_task(task_name, failure);
        proof {
            crate::session::lemma_step_preserves_wf(old(self)@[session_id]@, s@);
        }
        match self.sessions.replace(s) {
            Ok(()) => {
                proof {
                    assert(final(self)@.dom() =~= old(self)@.dom());
                }
                Ok(())
            },
            Err(_) => unreached(),
        }
    }

    /// The terminal write of a successful run: every task ran and the
    /// packager produced the archive at `output_path`. An empty path is
    /// rejected as a setup fault without touching the session.
    pub fn complete_session(&mut self, session_id: u128, output_path: String) -> (r: Result<
        (),
        ServiceError,
    >)
        requires
            old(self).wf(),
        ensures
            final(self).wf(),
            !old(self)@.contains_key(session_id) ==> r == Err::<(), ServiceError>(
                ServiceError::SessionNotFound,
            ) && final(self)@ == old(self)@,
            old(self)@.contains_key(session_id) && !(old(self)@[session_id]@.status
                == SessionStatus::Running && old(self)@[session_id]@.completed_tasks == old(
                self,
            )@[session_id]@.total_tasks) ==> r == Err::<(), ServiceError>(
                ServiceError::InvalidTransition,
            ) && final(self)@ == old(self)@,
            old(self)@.contains_key(session_id) && old(self)@[session_id]@.status
                == SessionStatus::Running && old(self)@[session_id]@.completed_tasks == old(
                self,
            )@[session_id]@.total_tasks && output_path@.len() == 0 ==> r == Err::<(
                ),
                ServiceError,
            >(ServiceError::Setup) && final(self)@ == old(self)@,
            old(self)@.contains_key(session_id) && old(self)@[session_id]@.status
                == SessionStatus::Running && old(self)@[session_id]@.completed_tasks == old(
                self,
            )@[session_id]@.total_tasks && output_path@.len() > 0 ==> r is Ok && exists|now: int|
                #[trigger] updated_to(
                    old(self)@,
                    final(self)@,
                    session_id,
                    old(self)@[session_id]@.with_completed(output_path@, now),
                ),
    {
        let mut s = match self.sessions.get(session_id) {
            Some(s) => s,
            None => {
                return Err(ServiceError::SessionNotFound);
            },
        };
        if !(s.status == SessionStatus::Running && s.completed_tasks == s.total_tasks) {
            return Err(ServiceError::InvalidTransition);
        }
        if output_path.as_str().unicode_len() == 0 {
            return Err(ServiceError::Setup);
        }
        let now = now_millis();
        let ghost path_view = output_path@;
        s.finish_completed(output_path, now);
        proof {
            crate::session::lemma_step_preserves_wf(old(self)@[session_id]@, s@);
        }
        match self.sessions.replace(s) {
            Ok(()) => {
                proof {
                    assert(final(self)@.dom() =~= old(self)@.dom());
                    assert(updated_to(
                        old(self)@,
                        final(self)@,
                        session_id,
                        old(self)@[session_id]@.with_completed(path_view, now as int),
                    ));
                }
                Ok(())
            },
            Err(_) => unreached(),
        }
    }

    /// The terminal write of a failed run: the fatal cause (a packaging
    /// or setup error) is appended to the session's errors.
    pub fn fail_session(&mut self, session_id: u128, error: String) -> (r: Result<
        (),
        ServiceError,
    >)
        requires
            old(self).wf(),
        ensures
            final(self).wf(),
            !old(self)@.contains_key(session_id) ==> r == Err::<(), ServiceError>(
                ServiceError::SessionNotFound,
            ) && final(self)@ == old(self)@,
            old(self)@.contains_key(session_id) && old(self)@[session_id]@.status
                != SessionStatus::Running ==> r == Err::<(), ServiceError>(
                ServiceError::InvalidTransition,
            ) && final(self)@ == old(self)@,
            old(self)@.contains_key(session_id) && old(self)@[session_id]@.status
                == SessionStatus::Running ==> r is Ok && exists|now: int|
                #[trigger] updated_to(
                    old(self)@,
                    final(self)@,
                    session_id,
                    old(self)@[session_id]@.with_failed(error@, now),
                ),
    {
        let mut s = match self.sessions.get(session_id) {
            Some(s) => s,
            None => {
                return Err(ServiceError::SessionNotFound);
            },
        };
        if s.status != SessionStatus::Running {
            return Err(ServiceError::InvalidTransition);
        }
        let now = now_millis();
        let ghost err_view = error@;
        s.finish_failed(error, now);
        proof {
            crate::session::lemma_step_preserves_wf(old(self)@[session_id]@, s@);
        }
        match self.sessions.replace(s) {
            Ok(()) => {
                proof {
                    assert(final(self)@.dom() =~= old(self)@.dom());
                    assert(updated_to(
                        old(self)@,
                        final(self)@,
                        session_id,
                        old(self)@[session_id]@.with_failed(err_view, now as int),
                    ));
                }
                Ok(())
            },
            Err(_) => unreached(),
        }
    }

    /// The terminal write of a cancelled run: the runner observed the
    /// cancellation flag at a task boundary; completed tasks stay
    /// recorded and the remaining tasks are never started.
    pub fn finish_cancelled(&mut self, session_id: u128) -> (r: Result<(), ServiceError>)
        requires
            old(self).wf(),
        ensures
            final(self).wf(),
            !old(self)@.contains_key(session_id) ==> r == Err::<(), ServiceError>(
                ServiceError::SessionNotFound,
            ) && final(self)@ == old(self)@,
            old(self)@.contains_key(session_id) && !(old(self)@[session_id]@.status
                == SessionStatus::Running && old(self)@[session_id]@.cancel_requested) ==> r
                == Err::<(), ServiceError>(ServiceError::InvalidTransition) && final(self)@ == old(
                self,
            )@,
            old(self)@.contains_key(session_id) && old(self)@[session_id]@.status
                == SessionStatus::Running && old(self)@[session_id]@.cancel_requested ==> r is Ok
                && exists|now: int|
                #[trigger] updated_to(
                    old(self)@,
                    final(self)@,
                    session_id,
                    old(self)@[session_id]@.with_cancelled(now),
                ),
    {
        let mut s = match self.sessions.get(session_id) {
            Some(s) => s,
            None => {
                return Err(ServiceError::SessionNotFound);
            },
        };
        if !(s.status == SessionStatus::Running && s.cancel_requested) {
            return Err(ServiceError::InvalidTransition);
        }
        let now = now_millis();
        s.finish_cancelled(now);
        proof {
            crate::session::lemma_step_preserves_wf(old(self)@[session_id]@, s@);
        }
        match self.sessions.replace(s) {
            Ok(()) => {
                proof {
                    assert(final(self)@.dom() =~= old(self)@.dom());
                    assert(updated_to(
                        old(self)@,
                        final(self)@,
                        session_id,
                        old(self)@[session_id]@.with_cancelled(now as int),
                    ));
                }
                Ok(())
            },
            Err(_) => unreached(),
        }
    }
}

} // verus!
