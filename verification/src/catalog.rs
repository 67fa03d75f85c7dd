//! The static catalog of diagnostic tasks.
//!
//! The catalog is fixed at process start: an ordered table of task names
//! with their privilege requirement. Its declaration order is the default
//! execution order of a session. Requested task ids are resolved here
//! against the privilege-filtered table; unmatched ids are silently
//! dropped.

use vstd::prelude::*;

use crate::models::string_views;

verus! {

/// One entry of the static task table.
pub struct DiagnosticTask {
    pub name: String,
    pub admin_required: bool,
}

/// Spec-level task table entry.
pub struct TaskEntryModel {
    pub name: Seq<char>,
    pub admin_required: bool,
}

impl View for DiagnosticTask {
    type V = TaskEntryModel;

    open spec fn view(&self) -> TaskEntryModel {
        TaskEntryModel { name: self.name@, admin_required: self.admin_required }
    }
}

/// The spec-level views of a sequence of table entries.
pub open spec fn task_views(s: Seq<DiagnosticTask>) -> Seq<TaskEntryModel> {
    s.map_values(|t: DiagnosticTask| t@)
}

/// The full task table, in declaration order.
pub open spec fn spec_diagnostic_tasks() -> Seq<TaskEntryModel> {
    seq![
        (TaskEntryModel { name: "Computer System"@, admin_required: false }),
        (TaskEntryModel { name: "Operating System"@, admin_required: false }),
        (TaskEntryModel { name: "BIOS"@, admin_required: false }),
        (TaskEntryModel { name: "BaseBoard"@, admin_required: false }),
        (TaskEntryModel { name: "Processor"@, admin_required: false }),
        (TaskEntryModel { name: "Physical Memory"@, admin_required: false }),
        (TaskEntryModel { name: "Device Memory Address"@, admin_required: false }),
        (TaskEntryModel { name: "DMA Channel"@, admin_required: false }),
        (TaskEntryModel { name: "IRQ Resource"@, admin_required: false }),
        (TaskEntryModel { name: "Disk Drive"@, admin_required: false }),
        (TaskEntryModel { name: "Disk Partition"@, admin_required: false }),
        (TaskEntryModel { name: "System Devices"@, admin_required: false }),
        (TaskEntryModel { name: "Network Adapter"@, admin_required: false }),
        (TaskEntryModel { name: "Printer"@, admin_required: false }),
        (TaskEntryModel { name: "Environment"@, admin_required: false }),
        (TaskEntryModel { name: "Startup Command"@, admin_required: false }),
        (TaskEntryModel { name: "System Driver"@, admin_required: false }),
        (TaskEntryModel { name: "DXDiag"@, admin_required: false }),
        (TaskEntryModel { name: "SystemInfo"@, admin_required: false }),
        (TaskEntryModel { name: "Drivers"@, admin_required: false }),
        (TaskEntryModel { name: "Event Logs"@, admin_required: false }),
        (TaskEntryModel { name: "IPConfig"@, admin_required: false }),
        (TaskEntryModel { name: "Installed Programs"@, admin_required: false }),
        (TaskEntryModel { name: "Windows Store Apps"@, admin_required: false }),
        (TaskEntryModel { name: "System Services"@, admin_required: false }),
        (TaskEntryModel { name: "Processes"@, admin_required: false }),
        (TaskEntryModel { name: "Performance Data"@, admin_required: false }),
        (TaskEntryModel { name: "HOSTS File"@, admin_required: false }),
        (TaskEntryModel { name: "Dsregcmd"@, admin_required: false }),
        (TaskEntryModel { name: "Scheduled Tasks"@, admin_required: false }),
        (TaskEntryModel { name: "Windows Update Log"@, admin_required: false }),
        (TaskEntryModel { name: "Chkdsk"@, admin_required: true }),
        (TaskEntryModel { name: "DISM CheckHealth"@, admin_required: true }),
        (TaskEntryModel { name: "Battery Report"@, admin_required: true }),
        (TaskEntryModel { name: "Driver Verifier"@, admin_required: true }),
        (TaskEntryModel { name: "BSOD Minidump"@, admin_required: true }),
    ]
}

/// The executable task table; its entries mirror
/// [`spec_diagnostic_tasks`] one for one, in order.
pub fn diagnostic_tasks() -> (r: Vec<DiagnosticTask>)
    ensures
        task_views(r@) =~= spec_diagnostic_tasks(),
{
    let mut v: Vec<DiagnosticTask> = Vec::new();
    v.push(DiagnosticTask { name: "Computer System".to_owned(), admin_required: false });
    v.push(DiagnosticTask { name: "Operating System".to_owned(), admin_required: false });
    v.push(DiagnosticTask { name: "BIOS".to_owned(), admin_required: false });
    v.push(DiagnosticTask { name: "BaseBoard".to_owned(), admin_required: false });
    v.push(DiagnosticTask { name: "Processor".to_owned(), admin_required: false });
    v.push(DiagnosticTask { name: "Physical Memory".to_owned(), admin_required: false });
    v.push(DiagnosticTask { name: "Device Memory Address".to_owned(), admin_required: false });
    v.push(DiagnosticTask { name: "DMA Channel".to_owned(), admin_required: false });
    v.push(DiagnosticTask { name: "IRQ Resource".to_owned(), admin_required: false });
    v.push(DiagnosticTask { name: "Disk Drive".to_owned(), admin_required: false });
    v.push(DiagnosticTask { name: "Disk Partition".to_owned(), admin_required: false });
    v.push(DiagnosticTask { name: "System Devices".to_owned(), admin_required: false });
    v.push(DiagnosticTask { name: "Network Adapter".to_owned(), admin_required: false });
    v.push(DiagnosticTask { name: "Printer".to_owned(), admin_required: false });
    v.push(DiagnosticTask { name: "Environment".to_owned(), admin_required: false });
    v.push(DiagnosticTask { name: "Startup Command".to_owned(), admin_required: false });
    v.push(DiagnosticTask { name: "System Driver".to_owned(), admin_required: false });
    v.push(DiagnosticTask { name: "DXDiag".to_owned(), admin_required: false });
    v.push(DiagnosticTask { name: "SystemInfo".to_owned(), admin_required: false });
    v.push(DiagnosticTask { name: "Drivers".to_owned(), admin_required: false });
    v.push(DiagnosticTask { name: "Event Logs".to_owned(), admin_required: false });
    v.push(DiagnosticTask { name: "IPConfig".to_owned(), admin_required: false });
    v.push(DiagnosticTask { name: "Installed Programs".to_owned(), admin_required: false });
    v.push(DiagnosticTask { name: "Windows Store Apps".to_owned(), admin_required: false });
    v.push(DiagnosticTask { name: "System Services".to_owned(), admin_required: false });
    v.push(DiagnosticTask { name: "Processes".to_owned(), admin_required: false });
    v.push(DiagnosticTask { name: "Performance Data".to_owned(), admin_required: false });
    v.push(DiagnosticTask { name: "HOSTS File".to_owned(), admin_required: false });
    v.push(DiagnosticTask { name: "Dsregcmd".to_owned(), admin_required: false });
    v.push(DiagnosticTask { name: "Scheduled Tasks".to_owned(), admin_required: false });
    v.push(DiagnosticTask { name: "Windows Update Log".to_owned(), admin_required: false });
    v.push(DiagnosticTask { name: "Chkdsk".to_owned(), admin_required: true });
    v.push(DiagnosticTask { name: "DISM CheckHealth".to_owned(), admin_required: true });
    v.push(DiagnosticTask { name: "Battery Report".to_owned(), admin_required: true });
    v.push(DiagnosticTask { name: "Driver Verifier".to_owned(), admin_required: true });
    v.push(DiagnosticTask { name: "BSOD Minidump".to_owned(), admin_required: true });
    proof {
        assert(task_views(v@) =~= spec_diagnostic_tasks());
    }
    v
}

/// Whether a table entry is visible at the given privilege level.
pub open spec fn task_visible(t: TaskEntryModel, admin: bool) -> bool {
    !t.admin_required || admin
}

/// The catalog as seen at the given privilege level: every entry whose
/// privilege requirement is met, in declaration order.
pub open spec fn spec_visible_tasks(admin: bool) -> Seq<TaskEntryModel> {
    spec_diagnostic_tasks().filter(|t: TaskEntryModel| task_visible(t, admin))
}

/// Appending one element to a sequence extends its filtered image by that
/// element exactly when the element passes the predicate.
proof fn lemma_filter_push<A>(s: Seq<A>, x: A, pred: spec_fn(A) -> bool)
    ensures
        s.push(x).filter(pred) == if pred(x) {
            s.filter(pred).push(x)
        } else {
            s.filter(pred)
        },
{
    reveal(Seq::filter);
    assert(s.push(x).drop_last() =~= s);
    assert(s.push(x).last() == x);
}

/// Every task the given privilege level may run, in catalog order.
pub fn get_filtered_tasks(is_admin: bool) -> (r: Vec<DiagnosticTask>)
    ensures
        task_views(r@) =~= spec_visible_tasks(is_admin),
{
    let tasks = diagnostic_tasks();
    let mut out: Vec<DiagnosticTask> = Vec::new();
    let n = tasks.len();
    for i in 0..n
        invariant
            n == tasks@.len(),
            task_views(tasks@) =~= spec_diagnostic_tasks(),
            task_views(out@) =~= task_views(tasks@).take(i as int).filter(
                |t: TaskEntryModel| task_visible(t, is_admin),
            ),
    {
        proof {
            assert(task_views(tasks@).take(i as int).push(tasks@[i as int]@) =~= task_views(
                tasks@,
            ).take(i + 1));
            lemma_filter_push(
                task_views(tasks@).take(i as int),
                tasks@[i as int]@,
                |t: TaskEntryModel| task_visible(t, is_admin),
            );
        }
        if !tasks[i].admin_required || is_admin {
            out.push(DiagnosticTask {
                name: tasks[i].name.clone(),
                admin_required: tasks[i].admin_required,
            });
        }
    }
    proof {
        assert(task_views(tasks@).take(n as int) =~= task_views(tasks@));
    }
    out
}

/// How one character of a task name appears in the task's id: spaces
/// become underscores and ASCII capitals are lowered.
pub open spec fn id_char(c: char) -> char {
    if c == ' ' {
        '_'
    } else if 'A' <= c && c <= 'Z' {
        (((c as u8) + 32) as char)
    } else {
        c
    }
}

/// The stable id of a task name: its characters mapped by [`id_char`].
/// Only ASCII names are rewritten; a non-ASCII name is its own id.
pub open spec fn spec_task_id(name: Seq<char>) -> Seq<char> {
    if vstd::utf8::is_ascii_chars(name) {
        name.map_values(|c: char| id_char(c))
    } else {
        name
    }
}

/// Relies on `String::from_utf8`: bytes below 0x80 are ASCII and decode
/// to the characters with the same code points.
#[verifier::external_body]
fn ascii_string_from_bytes(bytes: Vec<u8>) -> (r: String)
    requires
        forall|i: int| 0 <= i < bytes@.len() ==> bytes@[i] < 128,
    ensures
        r@ == bytes@.map_values(|b: u8| b as char),
{
    match String::from_utf8(bytes) {
        Ok(s) => s,
        Err(_) => String::new(),
    }
}

/// The id a task name resolves under, as [`spec_task_id`] states it.
pub fn task_id_of(name: &str) -> (r: String)
    ensures
        r@ == spec_task_id(name@),
{
    if !name.is_ascii() {
        return name.to_owned();
    }
    broadcast use vstd::string::is_ascii_spec_bytes;

    let bytes = name.as_bytes_vec();
    let mut out: Vec<u8> = Vec::new();
    let n = bytes.len();
    for i in 0..n
        invariant
            n == bytes@.len(),
            bytes@.len() == name@.len(),
            forall|k: int| 0 <= k < bytes@.len() ==> bytes@[k] == name@[k] as u8,
            vstd::utf8::is_ascii_chars(name@),
            out@.len() == i,
            forall|k: int| 0 <= k < i ==> out@[k] < 128,
            forall|k: int| 0 <= k < i ==> out@[k] as char == id_char(name@[k]),
    {
        let b = bytes[i];
        let mapped: u8 = if b == 32 {
            95
        } else if 65 <= b && b <= 90 {
            b + 32
        } else {
            b
        };
        proof {
            assert(name@[i as int] <= '\u{7f}');
            assert(mapped as char == id_char(name@[i as int]));
        }
        out.push(mapped);
    }
    let r = ascii_string_from_bytes(out);
    proof {
        assert(r@ =~= name@.map_values(|c: char| id_char(c)));
    }
    r
}

/// Whether two string slices hold the same characters.
fn str_eq(a: &str, b: &str) -> (r: bool)
    ensures
        r == (a@ == b@),
{
    let sa: String = a.to_owned();
    let sb: String = b.to_owned();
    sa == sb
}

/// The short description shown for a task name.
pub open spec fn spec_task_description(name: Seq<char>) -> Seq<char> {
    if name == "Computer System"@ {
        "Hardware and system information"@
    } else if name == "Operating System"@ {
        "Windows version and configuration"@
    } else if name == "BIOS"@ {
        "Firmware and boot settings"@
    } else if name == "BaseBoard"@ {
        "Motherboard specifications"@
    } else if name == "Processor"@ {
        "CPU details and capabilities"@
    } else if name == "Physical Memory"@ {
        "RAM configuration and usage"@
    } else if name == "Network Adapter"@ {
        "Network interfaces and settings"@
    } else if name == "Disk Drive"@ {
        "Storage devices and partitions"@
    } else if name == "DXDiag"@ {
        "DirectX and graphics diagnostics"@
    } else if name == "System Services"@ {
        "Windows services status"@
    } else if name == "Processes"@ {
        "Running applications and tasks"@
    } else if name == "Event Logs"@ {
        "System and application logs"@
    } else {
        "System diagnostic information"@
    }
}

/// The short description shown for a task name.
pub fn get_task_description(task_name: &str) -> (r: String)
    ensures
        r@ == spec_task_description(task_name@),
{
    if str_eq(task_name, "Computer System") {
        "Hardware and system information".to_owned()
    } else if str_eq(task_name, "Operating System") {
        "Windows version and configuration".to_owned()
    } else if str_eq(task_name, "BIOS") {
        "Firmware and boot settings".to_owned()
    } else if str_eq(task_name, "BaseBoard") {
        "Motherboard specifications".to_owned()
    } else if str_eq(task_name, "Processor") {
        "CPU details and capabilities".to_owned()
    } else if str_eq(task_name, "Physical Memory") {
        "RAM configuration and usage".to_owned()
    } else if str_eq(task_name, "Network Adapter") {
        "Network interfaces and settings".to_owned()
    } else if str_eq(task_name, "Disk Drive") {
        "Storage devices and partitions".to_owned()
    } else if str_eq(task_name, "DXDiag") {
        "DirectX and graphics diagnostics".to_owned()
    } else if str_eq(task_name, "System Services") {
        "Windows services status".to_owned()
    } else if str_eq(task_name, "Processes") {
        "Running applications and tasks".to_owned()
    } else if str_eq(task_name, "Event Logs") {
        "System and application logs".to_owned()
    } else {
        "System diagnostic information".to_owned()
    }
}

/// The category a task name is grouped under.
pub open spec fn spec_task_category(name: Seq<char>) -> Seq<char> {
    if name == "Computer System"@ || name == "Operating System"@ || name == "BIOS"@
        || name == "BaseBoard"@ {
        "System"@
    } else if name == "Processor"@ || name == "Physical Memory"@ {
        "Hardware"@
    } else if name == "Network Adapter"@ || name == "IPConfig"@ {
        "Network"@
    } else if name == "Disk Drive"@ || name == "Disk Partition"@ || name == "Chkdsk"@ {
        "Storage"@
    } else if name == "System Services"@ || name == "Processes"@
        || name == "Scheduled Tasks"@ {
        "Services"@
    } else if name == "Event Logs"@ || name == "Windows Update Log"@ {
        "Logs"@
    } else if name == "DXDiag"@ || name == "Drivers"@ || name == "Driver Verifier"@ {
        "Drivers"@
    } else {
        "Other"@
    }
}

/// The category a task name is grouped under.
pub fn get_task_category(task_name: &str) -> (r: String)
    ensures
        r@ == spec_task_category(task_name@),
{
    if str_eq(task_name, "Computer System") || str_eq(task_name, "Operating System")
        || str_eq(task_name, "BIOS") || str_eq(task_name, "BaseBoard") {
        "System".to_owned()
    } else if str_eq(task_name, "Processor") || str_eq(task_name, "Physical Memory") {
        "Hardware".to_owned()
    } else if str_eq(task_name, "Network Adapter") || str_eq(task_name, "IPConfig") {
        "Network".to_owned()
    } else if str_eq(task_name, "Disk Drive") || str_eq(task_name, "Disk Partition")
        || str_eq(task_name, "Chkdsk") {
        "Storage".to_owned()
    } else if str_eq(task_name, "System Services") || str_eq(task_name, "Processes")
        || str_eq(task_name, "Scheduled Tasks") {
        "Services".to_owned()
    } else if str_eq(task_name, "Event Logs") || str_eq(task_name, "Windows Update Log") {
        "Logs".to_owned()
    } else if str_eq(task_name, "DXDiag") || str_eq(task_name, "Drivers")
        || str_eq(task_name, "Driver Verifier") {
        "Drivers".to_owned()
    } else {
        "Other".to_owned()
    }
}

/// Whether a vector of strings holds one with the given characters.
fn contains_string(v: &Vec<String>, x: &String) -> (r: bool)
    ensures
        r == string_views(v@).contains(x@),
{
    let n = v.len();
    for i in 0..n
        invariant
            n == v@.len(),
            forall|k: int| 0 <= k < i ==> string_views(v@)[k] != x@,
    {
        if v[i].eq(x) {
            proof {
                assert(string_views(v@)[i as int] == x@);
            }
            return true;
        }
    }
    false
}

/// How a table entry is presented to API callers: id, description and
/// category are all derived from the task's name.
pub open spec fn spec_descriptor_of(t: TaskEntryModel) -> crate::models::TaskDescriptorModel {
    crate::models::TaskDescriptorModel {
        id: spec_task_id(t.name),
        name: t.name,
        description: spec_task_description(t.name),
        admin_required: t.admin_required,
        category: spec_task_category(t.name),
    }
}

/// Builds the API-facing descriptor of one table entry.
pub fn descriptor_of(t: &DiagnosticTask) -> (r: crate::models::DiagnosticTask)
    ensures
        r@ == spec_descriptor_of(t@),
{
    crate::models::DiagnosticTask {
        id: task_id_of(t.name.as_str()),
        name: t.name.clone(),
        description: get_task_description(t.name.as_str()),
        admin_required: t.admin_required,
        category: get_task_category(t.name.as_str()),
    }
}

/// The tasks a request resolves to: every visible catalog entry whose id
/// occurs among the requested ids, in catalog order. Unmatched requested
/// ids resolve to nothing.
pub open spec fn spec_resolved_tasks(requested: Seq<Seq<char>>, admin: bool) -> Seq<
    TaskEntryModel,
> {
    spec_visible_tasks(admin).filter(
        |t: TaskEntryModel| requested.contains(spec_task_id(t.name)),
    )
}

/// Resolves requested task ids against the privilege-filtered catalog.
pub fn resolve_task_ids(requested: &Vec<String>, is_admin: bool) -> (r: Vec<DiagnosticTask>)
    ensures
        task_views(r@) =~= spec_resolved_tasks(string_views(requested@), is_admin),
{
    let visible = get_filtered_tasks(is_admin);
    let mut out: Vec<DiagnosticTask> = Vec::new();
    let n = visible.len();
    for i in 0..n
        invariant
            n == visible@.len(),
            task_views(visible@) =~= spec_visible_tasks(is_admin),
            task_views(out@) =~= task_views(visible@).take(i as int).filter(
                |t: TaskEntryModel| string_views(requested@).contains(spec_task_id(t.name)),
            ),
    {
        proof {
            assert(task_views(visible@).take(i as int).push(visible@[i as int]@)
                =~= task_views(visible@).take(i + 1));
            lemma_filter_push(
                task_views(visible@).take(i as int),
                visible@[i as int]@,
                |t: TaskEntryModel| string_views(requested@).contains(spec_task_id(t.name)),
            );
        }
        let id = task_id_of(visible[i].name.as_str());
        if contains_string(requested, &id) {
            out.push(DiagnosticTask {
                name: visible[i].name.clone(),
                admin_required: visible[i].admin_required,
            });
        }
    }
    proof {
        assert(task_views(visible@).take(n as int) =~= task_views(visible@));
        assert(spec_visible_tasks(is_admin).filter(
            |t: TaskEntryModel| string_views(requested@).contains(spec_task_id(t.name)),
        ) =~= spec_resolved_tasks(string_views(requested@), is_admin));
    }
    out
}

} // verus!
