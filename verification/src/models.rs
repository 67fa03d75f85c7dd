//! Plain data types of the diagnostics API surface.

use vstd::prelude::*;

verus! {

/// Lifecycle state of a diagnostic session.
///
/// `Pending` is the only initial state; `Completed`, `Failed` and
/// `Cancelled` are the only terminal states, and no transition ever
/// leaves a terminal state.
#[derive(Clone, Copy, Debug, PartialEq, Eq, Structural)]
pub enum SessionStatus {
    Pending,
    Running,
    Completed,
    Failed,
    Cancelled,
}

impl SessionStatus {
    /// True of the three states a session can end in.
    pub open spec fn spec_is_terminal(&self) -> bool {
        *self == SessionStatus::Completed || *self == SessionStatus::Failed
            || *self == SessionStatus::Cancelled
    }

    #[verifier::when_used_as_spec(spec_is_terminal)]
    pub fn is_terminal(&self) -> (r: bool)
        ensures
            r == self.spec_is_terminal(),
    {
        match self {
            SessionStatus::Completed => true,
            SessionStatus::Failed => true,
            SessionStatus::Cancelled => true,
            _ => false,
        }
    }
}

/// Shape of every API reply: either a payload or an error message.
pub struct ApiResponse<T> {
    pub success: bool,
    pub data: Option<T>,
    pub error: Option<String>,
}

impl<T> ApiResponse<T> {
    pub fn success(data: T) -> (r: Self)
        ensures
            r.success == true,
            r.data == Some(data),
            r.error is None,
    {
        Self { success: true, data: Some(data), error: None }
    }

    pub fn error(error: String) -> (r: Self)
        ensures
            r.success == false,
            r.data is None,
            r.error == Some(error),
    {
        Self { success: false, data: None, error: Some(error) }
    }
}

/// Requested output packaging of a session.
#[derive(Clone, Copy, Debug, PartialEq, Eq, Structural)]
pub enum OutputFormat {
    Json,
    Zip,
    Both,
}

impl Default for OutputFormat {
    fn default() -> (r: Self)
        ensures
            r == OutputFormat::Both,
    {
        OutputFormat::Both
    }
}

/// A request to start a diagnostic session.
pub struct DiagnosticRequest {
    pub selected_tasks: Vec<String>,
    pub output_format: Option<OutputFormat>,
}

/// The character sequences of a vector of strings.
pub open spec fn string_views(v: Seq<String>) -> Seq<Seq<char>> {
    v.map_values(|s: String| s@)
}

/// The character sequence of an optional string.
pub open spec fn string_opt_view(o: Option<String>) -> Option<Seq<char>> {
    match o {
        Some(s) => Some(s@),
        None => None,
    }
}

/// The mathematical value of an optional timestamp.
pub open spec fn int_opt_view(o: Option<i64>) -> Option<int> {
    match o {
        Some(t) => Some(t as int),
        None => None,
    }
}

/// Appending a string appends its character sequence to the views.
pub broadcast proof fn lemma_string_views_push(v: Seq<String>, s: String)
    ensures
        #[trigger] string_views(v.push(s)) =~= string_views(v).push(s@),
{
}

/// A task as presented to API callers: the catalog entry together with
/// its derived id, description and category.
pub struct DiagnosticTask {
    pub id: String,
    pub name: String,
    pub description: String,
    pub admin_required: bool,
    pub category: String,
}

/// Spec-level view of a presented task.
pub struct TaskDescriptorModel {
    pub id: Seq<char>,
    pub name: Seq<char>,
    pub description: Seq<char>,
    pub admin_required: bool,
    pub category: Seq<char>,
}

impl View for DiagnosticTask {
    type V = TaskDescriptorModel;

    open spec fn view(&self) -> TaskDescriptorModel {
        TaskDescriptorModel {
            id: self.id@,
            name: self.name@,
            description: self.description@,
            admin_required: self.admin_required,
            category: self.category@,
        }
    }
}

/// The spec-level views of a sequence of presented tasks.
pub open spec fn descriptor_views(s: Seq<DiagnosticTask>) -> Seq<TaskDescriptorModel> {
    s.map_values(|t: DiagnosticTask| t@)
}

/// Outcome of one executed task, as recorded in a report.
pub struct TaskResult {
    pub task_name: String,
    pub success: bool,
    pub output: Option<String>,
    pub error: Option<String>,
    pub duration_ms: u64,
}

} // verus!
