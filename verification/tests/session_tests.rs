use wfdiag::DiagnosticSession;
use wfdiag::SessionStatus;
use wfdiag::SessionStore;
use wfdiag::ServiceError;

#[test]
fn new_session_is_pending_and_empty() {
    let s = DiagnosticSession::new(7, 5, 1000);
    assert_eq!(s.id, 7);
    assert_eq!(s.status, SessionStatus::Pending);
    assert_eq!(s.completed_tasks, 0);
    assert_eq!(s.total_tasks, 5);
    assert_eq!(s.started_at, 1000);
    assert!(s.completed_at.is_none());
    assert!(s.output_path.is_none());
    assert!(s.current_task.is_none());
    assert!(s.errors.is_empty());
    assert!(!s.cancel_requested);
    assert_eq!(s.progress_permille(), 0);
}

#[test]
fn progress_is_exact_thousandths() {
    let mut s = DiagnosticSession::new(1, 3, 0);
    s.start_running(5);
    assert_eq!(s.progress_permille(), 0);
    s.begin_task("BIOS".to_string());
    s.finish_task("BIOS", None);
    assert_eq!(s.progress_permille(), 333);
    s.finish_task("Processor", None);
    assert_eq!(s.progress_permille(), 666);
    s.finish_task("Disk Drive", None);
    // All tasks ran but the archive is not packaged yet: not full.
    assert_eq!(s.progress_permille(), 999);
    s.finish_completed("out.zip".to_string(), 9);
    assert_eq!(s.progress_permille(), 1000);
}

#[test]
fn progress_is_full_only_when_completed() {
    // A failed run never reports full progress, even with all tasks done.
    let mut s = DiagnosticSession::new(1, 2, 0);
    s.start_running(1);
    s.finish_task("BIOS", None);
    s.finish_task("Processor", None);
    s.finish_failed("pack failed".to_string(), 2);
    assert_eq!(s.status, SessionStatus::Failed);
    assert!(s.progress_permille() < 1000);
    assert!(s.output_path.is_none());
}

#[test]
fn task_failure_is_recorded_and_counted() {
    let mut s = DiagnosticSession::new(1, 2, 0);
    s.start_running(1);
    s.finish_task("BIOS", Some("access denied".to_string()));
    assert_eq!(s.completed_tasks, 1);
    assert_eq!(s.errors.len(), 1);
    assert_eq!(s.errors[0], "BIOS: access denied");
    // The session goes on after a failure.
    s.finish_task("Processor", None);
    assert_eq!(s.completed_tasks, 2);
    assert_eq!(s.errors.len(), 1);
}

#[test]
fn completed_tasks_never_exceed_total() {
    let mut s = DiagnosticSession::new(1, 2, 0);
    s.start_running(1);
    s.finish_task("BIOS", None);
    assert!(s.completed_tasks <= s.total_tasks);
    s.finish_task("Processor", None);
    assert!(s.completed_tasks <= s.total_tasks);
    s.finish_completed("out.zip".to_string(), 2);
    assert!(s.completed_tasks <= s.total_tasks);
}

#[test]
fn cancel_is_accepted_once() {
    let mut s = DiagnosticSession::new(1, 3, 0);
    s.start_running(1);
    assert!(s.request_cancel().is_ok());
    assert_eq!(s.status, SessionStatus::Running);
    assert!(s.cancel_requested);
    // The second request in a row is an invalid transition.
    assert_eq!(s.request_cancel(), Err(ServiceError::InvalidTransition));
}

#[test]
fn cancel_of_pending_session_is_rejected() {
    let mut s = DiagnosticSession::new(1, 3, 0);
    assert_eq!(s.request_cancel(), Err(ServiceError::InvalidTransition));
    assert_eq!(s.status, SessionStatus::Pending);
}

#[test]
fn cancelled_session_keeps_completed_work() {
    let mut s = DiagnosticSession::new(1, 5, 0);
    s.start_running(1);
    s.finish_task("BIOS", None);
    s.finish_task("Processor", None);
    assert!(s.request_cancel().is_ok());
    s.finish_cancelled(9);
    assert_eq!(s.status, SessionStatus::Cancelled);
    assert_eq!(s.completed_tasks, 2);
    assert_eq!(s.completed_at, Some(9));
    assert!(s.output_path.is_none());
}

#[test]
fn terminal_session_rejects_cancel() {
    let mut s = DiagnosticSession::new(1, 0, 0);
    s.start_running(1);
    s.finish_completed("out.zip".to_string(), 2);
    assert_eq!(s.status, SessionStatus::Completed);
    assert_eq!(s.request_cancel(), Err(ServiceError::InvalidTransition));
    assert_eq!(s.status, SessionStatus::Completed);
    assert_eq!(s.output_path.as_deref(), Some("out.zip"));
}

#[test]
fn snapshot_is_independent() {
    let mut s = DiagnosticSession::new(1, 2, 0);
    s.start_running(1);
    s.finish_task("BIOS", Some("boom".to_string()));
    let snap = s.snapshot();
    s.finish_task("Processor", None);
    assert_eq!(snap.completed_tasks, 1);
    assert_eq!(s.completed_tasks, 2);
    assert_eq!(snap.errors, vec!["BIOS: boom".to_string()]);
}

#[test]
fn store_rejects_duplicate_ids() {
    let mut store = SessionStore::new();
    assert!(store.insert(DiagnosticSession::new(42, 1, 0)).is_ok());
    assert_eq!(
        store.insert(DiagnosticSession::new(42, 3, 5)),
        Err(ServiceError::DuplicateSession)
    );
    // The first record is untouched.
    let got = store.get(42).unwrap();
    assert_eq!(got.total_tasks, 1);
}

#[test]
fn store_replace_needs_existing_id() {
    let mut store = SessionStore::new();
    assert_eq!(
        store.replace(DiagnosticSession::new(42, 1, 0)),
        Err(ServiceError::SessionNotFound)
    );
    assert!(store.insert(DiagnosticSession::new(42, 1, 0)).is_ok());
    let mut s = store.get(42).unwrap();
    s.start_running(3);
    assert!(store.replace(s).is_ok());
    assert_eq!(store.get(42).unwrap().status, SessionStatus::Running);
}

#[test]
fn store_writes_are_isolated() {
    let mut store = SessionStore::new();
    assert!(store.insert(DiagnosticSession::new(1, 1, 0)).is_ok());
    assert!(store.insert(DiagnosticSession::new(2, 2, 0)).is_ok());
    let mut s = store.get(1).unwrap();
    s.start_running(7);
    s.begin_task("BIOS".to_string());
    assert!(store.replace(s).is_ok());
    let other = store.get(2).unwrap();
    assert_eq!(other.status, SessionStatus::Pending);
    assert!(other.current_task.is_none());
}
