use wfdiag::DiagnosticSession;
use wfdiag::ProgressSampler;
use wfdiag::SessionStatus;
use wfdiag::models::ApiResponse;
use wfdiag::models::OutputFormat;
use wfdiag::progress::make_update;
use wfdiag::progress::status_message;

#[test]
fn updates_mirror_the_session() {
    let mut s = DiagnosticSession::new(9, 4, 100);
    s.start_running(150);
    s.begin_task("Processor".to_string());
    s.finish_task("Processor", None);
    let u = make_update(&s, 1234);
    assert_eq!(u.session_id, 9);
    assert_eq!(u.status, SessionStatus::Running);
    assert_eq!(u.progress, 250);
    assert_eq!(u.completed_tasks, 1);
    assert_eq!(u.total_tasks, 4);
    assert_eq!(u.current_task.as_deref(), Some("Processor"));
    assert_eq!(u.timestamp, 1234);
    assert_eq!(u.message, "Running Processor...");
}

#[test]
fn completed_message_is_fixed() {
    let mut s = DiagnosticSession::new(9, 0, 100);
    s.start_running(150);
    s.finish_completed("out.zip".to_string(), 200);
    assert_eq!(status_message(&s), "Diagnostics completed successfully");
}

#[test]
fn failed_message_joins_the_errors() {
    let mut s = DiagnosticSession::new(9, 2, 100);
    s.start_running(150);
    s.finish_task("BIOS", Some("denied".to_string()));
    s.finish_task("Processor", Some("timeout".to_string()));
    s.finish_failed("disk full".to_string(), 200);
    assert_eq!(
        status_message(&s),
        "Diagnostics failed: BIOS: denied, Processor: timeout, disk full"
    );
}

#[test]
fn sampler_emits_heartbeats_then_one_terminal_update() {
    let mut s = DiagnosticSession::new(9, 1, 100);
    let mut sampler = ProgressSampler::new(9);
    // Heartbeats: every tick emits, even when nothing changed.
    s.start_running(150);
    assert!(sampler.observe(&s, 1).is_some());
    assert!(sampler.observe(&s, 2).is_some());
    s.finish_task("Processor", None);
    assert!(sampler.observe(&s, 3).is_some());
    // The terminal state is delivered exactly once, then the sampler stops.
    s.finish_completed("out.zip".to_string(), 200);
    let last = sampler.observe(&s, 4).unwrap();
    assert_eq!(last.status, SessionStatus::Completed);
    assert_eq!(last.progress, 1000);
    assert!(sampler.observe(&s, 5).is_none());
    assert!(sampler.observe(&s, 6).is_none());
}

#[test]
fn api_response_wraps_success_and_error() {
    let ok: ApiResponse<u32> = ApiResponse::success(17);
    assert!(ok.success);
    assert_eq!(ok.data, Some(17));
    assert!(ok.error.is_none());
    let bad: ApiResponse<u32> = ApiResponse::error("Session not found".to_string());
    assert!(!bad.success);
    assert!(bad.data.is_none());
    assert_eq!(bad.error.as_deref(), Some("Session not found"));
}

#[test]
fn default_output_format_is_both() {
    assert_eq!(OutputFormat::default(), OutputFormat::Both);
}
