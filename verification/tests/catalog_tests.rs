use wfdiag::catalog::diagnostic_tasks;
use wfdiag::catalog::get_filtered_tasks;
use wfdiag::catalog::get_task_category;
use wfdiag::catalog::get_task_description;
use wfdiag::catalog::resolve_task_ids;
use wfdiag::catalog::task_id_of;

#[test]
fn catalog_has_every_task_in_order() {
    let tasks = diagnostic_tasks();
    assert_eq!(tasks.len(), 36);
    assert_eq!(tasks[0].name, "Computer System");
    assert_eq!(tasks[4].name, "Processor");
    assert_eq!(tasks[30].name, "Windows Update Log");
    assert_eq!(tasks[35].name, "BSOD Minidump");
    assert!(!tasks[0].admin_required);
    assert!(tasks[31].admin_required);
}

#[test]
fn catalog_ids_are_unique() {
    let tasks = diagnostic_tasks();
    let mut ids: Vec<String> = tasks.iter().map(|t| task_id_of(&t.name)).collect();
    let before = ids.len();
    ids.sort();
    ids.dedup();
    assert_eq!(ids.len(), before);
}

#[test]
fn privilege_filter_hides_admin_tasks() {
    let user_tasks = get_filtered_tasks(false);
    let admin_tasks = get_filtered_tasks(true);
    assert_eq!(user_tasks.len(), 31);
    assert_eq!(admin_tasks.len(), 36);
    assert!(user_tasks.iter().all(|t| !t.admin_required));
    assert!(user_tasks.iter().all(|t| t.name != "Chkdsk"));
    assert!(admin_tasks.iter().any(|t| t.name == "Chkdsk"));
    // Declaration order is kept.
    assert_eq!(user_tasks[0].name, "Computer System");
    assert_eq!(admin_tasks[35].name, "BSOD Minidump");
}

#[test]
fn task_ids_lower_the_name_and_replace_spaces() {
    assert_eq!(task_id_of("Computer System"), "computer_system");
    assert_eq!(task_id_of("DISM CheckHealth"), "dism_checkhealth");
    assert_eq!(task_id_of("DXDiag"), "dxdiag");
    assert_eq!(task_id_of("IPConfig"), "ipconfig");
    assert_eq!(task_id_of(""), "");
}

#[test]
fn descriptions_match_the_table() {
    assert_eq!(get_task_description("Processor"), "CPU details and capabilities");
    assert_eq!(get_task_description("Event Logs"), "System and application logs");
    assert_eq!(
        get_task_description("Computer System"),
        "Hardware and system information"
    );
    assert_eq!(get_task_description("Printer"), "System diagnostic information");
}

#[test]
fn categories_match_the_table() {
    assert_eq!(get_task_category("BIOS"), "System");
    assert_eq!(get_task_category("Physical Memory"), "Hardware");
    assert_eq!(get_task_category("IPConfig"), "Network");
    assert_eq!(get_task_category("Chkdsk"), "Storage");
    assert_eq!(get_task_category("Scheduled Tasks"), "Services");
    assert_eq!(get_task_category("Windows Update Log"), "Logs");
    assert_eq!(get_task_category("Driver Verifier"), "Drivers");
    assert_eq!(get_task_category("Printer"), "Other");
}

#[test]
fn resolution_keeps_known_ids_in_catalog_order() {
    let requested = vec![
        "processor".to_string(),
        "unknown_id".to_string(),
        "bios".to_string(),
    ];
    let resolved = resolve_task_ids(&requested, false);
    assert_eq!(resolved.len(), 2);
    // Catalog order, not request order: BIOS is declared before Processor.
    assert_eq!(resolved[0].name, "BIOS");
    assert_eq!(resolved[1].name, "Processor");
}

#[test]
fn resolution_respects_privilege() {
    let requested = vec!["chkdsk".to_string(), "processor".to_string()];
    let as_user = resolve_task_ids(&requested, false);
    assert_eq!(as_user.len(), 1);
    assert_eq!(as_user[0].name, "Processor");
    let as_admin = resolve_task_ids(&requested, true);
    assert_eq!(as_admin.len(), 2);
}

#[test]
fn resolution_of_empty_request_is_empty() {
    let requested: Vec<String> = Vec::new();
    let resolved = resolve_task_ids(&requested, true);
    assert_eq!(resolved.len(), 0);
}
