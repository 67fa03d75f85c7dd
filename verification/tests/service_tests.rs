use wfdiag::DiagnosticRequest;
use wfdiag::DiagnosticService;
use wfdiag::DiagnosticSession;
use wfdiag::RunnerAction;
use wfdiag::ServiceError;
use wfdiag::SessionStatus;

fn start(
    service: &mut DiagnosticService,
    ids: &[&str],
    is_admin: bool,
) -> (DiagnosticSession, Vec<String>) {
    let request = DiagnosticRequest {
        selected_tasks: ids.iter().map(|s| s.to_string()).collect(),
        output_format: None,
    };
    let (session, plan) = service.start_diagnostics(request, is_admin).unwrap();
    let names = plan.into_iter().map(|t| t.name).collect();
    (session, names)
}

/// Drives one session's runner loop: each planned task runs with the given
/// outcome, then the packager result is applied.
fn run_to_end(
    service: &mut DiagnosticService,
    id: u128,
    plan: &[String],
    failure_for: impl Fn(&str) -> Option<String>,
    pack_result: Result<String, String>,
) {
    service.mark_running(id).unwrap();
    loop {
        match service.next_action(id).unwrap() {
            RunnerAction::RunTask { index } => {
                let name = &plan[index];
                service.begin_task(id, name.clone()).unwrap();
                service.finish_task(id, name, failure_for(name)).unwrap();
            }
            RunnerAction::Package => {
                match pack_result {
                    Ok(path) => service.complete_session(id, path).unwrap(),
                    Err(e) => service.fail_session(id, e).unwrap(),
                }
                return;
            }
            RunnerAction::FinishCancelled => {
                service.finish_cancelled(id).unwrap();
                return;
            }
        }
    }
}

#[test]
fn available_tasks_carry_derived_fields() {
    let service = DiagnosticService::new();
    let tasks = service.get_available_tasks(false);
    assert_eq!(tasks.len(), 31);
    let proc = tasks.iter().find(|t| t.name == "Processor").unwrap();
    assert_eq!(proc.id, "processor");
    assert_eq!(proc.description, "CPU details and capabilities");
    assert_eq!(proc.category, "Hardware");
    assert!(!proc.admin_required);
    let admin_tasks = service.get_available_tasks(true);
    assert_eq!(admin_tasks.len(), 36);
}

#[test]
fn unknown_ids_are_silently_dropped() {
    // Requesting one known and one unknown id resolves to the known one.
    let mut service = DiagnosticService::new();
    let (session, plan) = start(&mut service, &["processor", "unknown_id"], false);
    assert_eq!(plan, vec!["Processor".to_string()]);
    assert_eq!(session.total_tasks, 1);
    assert_eq!(session.status, SessionStatus::Pending);
    run_to_end(&mut service, session.id, &plan, |_| None, Ok("out.zip".into()));
    let done = service.get_session(session.id).unwrap();
    assert_eq!(done.status, SessionStatus::Completed);
    assert_eq!(done.completed_tasks, 1);
}

#[test]
fn empty_request_completes_immediately() {
    let mut service = DiagnosticService::new();
    let (session, plan) = start(&mut service, &[], false);
    assert_eq!(session.total_tasks, 0);
    run_to_end(&mut service, session.id, &plan, |_| None, Ok("out.zip".into()));
    let done = service.get_session(session.id).unwrap();
    assert_eq!(done.status, SessionStatus::Completed);
    assert_eq!(done.total_tasks, 0);
    assert_eq!(done.completed_tasks, 0);
    assert_eq!(done.progress_permille(), 1000);
}

#[test]
fn failing_collector_does_not_fail_the_session() {
    let mut service = DiagnosticService::new();
    let (session, plan) = start(&mut service, &["processor"], false);
    run_to_end(
        &mut service,
        session.id,
        &plan,
        |_| Some("probe crashed".to_string()),
        Ok("out.zip".into()),
    );
    let done = service.get_session(session.id).unwrap();
    assert_eq!(done.status, SessionStatus::Completed);
    assert_eq!(done.errors.len(), 1);
    assert_eq!(done.errors[0], "Processor: probe crashed");
}

#[test]
fn cancel_mid_run_stops_before_the_next_task() {
    let mut service = DiagnosticService::new();
    let (session, plan) = start(
        &mut service,
        &["computer_system", "operating_system", "bios", "baseboard", "processor"],
        false,
    );
    assert_eq!(session.total_tasks, 5);
    let id = session.id;
    service.mark_running(id).unwrap();
    // Run the first two tasks by hand.
    for _ in 0..2 {
        match service.next_action(id).unwrap() {
            RunnerAction::RunTask { index } => {
                service.begin_task(id, plan[index].clone()).unwrap();
                service.finish_task(id, &plan[index], None).unwrap();
            }
            _ => panic!("expected a task to run"),
        }
    }
    // Cancel while task 3 has not started yet.
    service.cancel_session(id).unwrap();
    match service.next_action(id).unwrap() {
        RunnerAction::FinishCancelled => service.finish_cancelled(id).unwrap(),
        _ => panic!("cancel must be observed at the task boundary"),
    }
    let done = service.get_session(id).unwrap();
    assert_eq!(done.status, SessionStatus::Cancelled);
    assert_eq!(done.completed_tasks, 2);
    assert!(done.completed_at.is_some());
    assert!(done.output_path.is_none());
}

#[test]
fn cancel_twice_succeeds_once() {
    let mut service = DiagnosticService::new();
    let (session, _plan) = start(&mut service, &["processor", "bios"], false);
    let id = session.id;
    service.mark_running(id).unwrap();
    assert!(service.cancel_session(id).is_ok());
    assert_eq!(service.cancel_session(id), Err(ServiceError::InvalidTransition));
}

#[test]
fn cancel_rejections_name_the_cause() {
    let mut service = DiagnosticService::new();
    // Unknown id.
    assert_eq!(service.cancel_session(99), Err(ServiceError::SessionNotFound));
    assert_eq!(
        ServiceError::SessionNotFound.message(),
        "Session not found"
    );
    // Pending session: not running yet.
    let (session, _plan) = start(&mut service, &["processor"], false);
    assert_eq!(
        service.cancel_session(session.id),
        Err(ServiceError::InvalidTransition)
    );
    assert_eq!(
        ServiceError::InvalidTransition.message(),
        "Session is not running"
    );
}

#[test]
fn terminal_states_are_never_left() {
    let mut service = DiagnosticService::new();
    let (session, plan) = start(&mut service, &["processor"], false);
    let id = session.id;
    run_to_end(&mut service, id, &plan, |_| None, Ok("out.zip".into()));
    assert_eq!(service.get_session(id).unwrap().status, SessionStatus::Completed);
    // No further transition is accepted.
    assert!(service.cancel_session(id).is_err());
    assert!(service.mark_running(id).is_err());
    assert!(service.begin_task(id, "X".to_string()).is_err());
    assert!(service.finish_task(id, "X", None).is_err());
    assert!(service.complete_session(id, "again.zip".to_string()).is_err());
    assert!(service.fail_session(id, "late".to_string()).is_err());
    assert!(service.finish_cancelled(id).is_err());
    let done = service.get_session(id).unwrap();
    assert_eq!(done.status, SessionStatus::Completed);
    assert_eq!(done.output_path.as_deref(), Some("out.zip"));
}

#[test]
fn packaging_failure_fails_the_session() {
    let mut service = DiagnosticService::new();
    let (session, plan) = start(&mut service, &["processor"], false);
    run_to_end(
        &mut service,
        session.id,
        &plan,
        |_| None,
        Err("disk full".to_string()),
    );
    let done = service.get_session(session.id).unwrap();
    assert_eq!(done.status, SessionStatus::Failed);
    assert_eq!(done.errors, vec!["disk full".to_string()]);
    assert!(done.output_path.is_none());
    assert!(done.completed_at.is_some());
    assert!(done.progress_permille() < 1000);
}

#[test]
fn empty_archive_path_is_a_setup_fault() {
    let mut service = DiagnosticService::new();
    let (session, plan) = start(&mut service, &[], false);
    let id = session.id;
    service.mark_running(id).unwrap();
    assert_eq!(service.next_action(id).unwrap(), RunnerAction::Package);
    assert_eq!(
        service.complete_session(id, String::new()),
        Err(ServiceError::Setup)
    );
    // The session is untouched and can still be completed properly.
    assert_eq!(service.get_session(id).unwrap().status, SessionStatus::Running);
    let _ = plan;
    service.complete_session(id, "out.zip".to_string()).unwrap();
    assert_eq!(service.get_session(id).unwrap().status, SessionStatus::Completed);
}

#[test]
fn progress_never_decreases_while_running() {
    let mut service = DiagnosticService::new();
    let (session, plan) = start(
        &mut service,
        &["computer_system", "operating_system", "bios", "baseboard"],
        false,
    );
    let id = session.id;
    service.mark_running(id).unwrap();
    let mut last: u32 = 0;
    loop {
        let snap = service.get_session(id).unwrap();
        assert!(snap.completed_tasks <= snap.total_tasks);
        if snap.status == SessionStatus::Running {
            let p = snap.progress_permille();
            assert!(p >= last, "progress went backwards: {} then {}", last, p);
            last = p;
        }
        match service.next_action(id).unwrap() {
            RunnerAction::RunTask { index } => {
                service.begin_task(id, plan[index].clone()).unwrap();
                service.finish_task(id, &plan[index], None).unwrap();
            }
            RunnerAction::Package => {
                service.complete_session(id, "out.zip".to_string()).unwrap();
                break;
            }
            RunnerAction::FinishCancelled => unreachable!(),
        }
    }
    assert_eq!(service.get_session(id).unwrap().progress_permille(), 1000);
}

#[test]
fn progress_full_exactly_when_completed() {
    let mut service = DiagnosticService::new();
    let (session, plan) = start(&mut service, &["processor", "bios"], false);
    let id = session.id;
    service.mark_running(id).unwrap();
    loop {
        let snap = service.get_session(id).unwrap();
        // The two sides of the invariant, checked at every observation.
        assert_eq!(snap.progress_permille() == 1000, snap.status == SessionStatus::Completed);
        assert_eq!(snap.output_path.is_some(), snap.status == SessionStatus::Completed);
        match service.next_action(id) {
            Ok(RunnerAction::RunTask { index }) => {
                service.begin_task(id, plan[index].clone()).unwrap();
                service.finish_task(id, &plan[index], None).unwrap();
            }
            Ok(RunnerAction::Package) => {
                service.complete_session(id, "out.zip".to_string()).unwrap();
            }
            _ => break,
        }
    }
    let done = service.get_session(id).unwrap();
    assert_eq!(done.progress_permille(), 1000);
    assert_eq!(done.status, SessionStatus::Completed);
}

#[test]
fn twenty_sessions_stay_isolated() {
    let mut service = DiagnosticService::new();
    let mut ids: Vec<u128> = Vec::new();
    let mut plans: Vec<Vec<String>> = Vec::new();
    for _ in 0..20 {
        let (session, plan) = start(&mut service, &["processor"], false);
        assert!(!ids.contains(&session.id), "session ids must be distinct");
        ids.push(session.id);
        plans.push(plan);
    }
    for (i, id) in ids.iter().enumerate() {
        run_to_end(&mut service, *id, &plans[i], |_| None, Ok(format!("out-{}.zip", i)));
    }
    for (i, id) in ids.iter().enumerate() {
        let done = service.get_session(*id).unwrap();
        assert_eq!(done.status, SessionStatus::Completed);
        assert_eq!(done.completed_tasks, 1);
        assert!(done.errors.is_empty());
        assert_eq!(done.output_path.as_deref(), Some(format!("out-{}.zip", i).as_str()));
    }
}

#[test]
fn get_session_of_unknown_id_is_none() {
    let service = DiagnosticService::new();
    assert!(service.get_session(123).is_none());
}
