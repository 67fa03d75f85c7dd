//! Orchestration engine for host diagnostic sessions.
//!
//! A session turns a list of requested task identifiers into a running,
//! observable, cancellable unit of work: task ids are resolved against a
//! fixed catalog, the resolved tasks run strictly in catalog order, each
//! collector failure is recorded without aborting the session, and the
//! session resolves to exactly one terminal state (`Completed`, `Failed`
//! or `Cancelled`). Progress is reported both through polled snapshots
//! and through sampled progress events.

pub mod catalog;
pub mod errors;
pub mod models;
pub mod progress;
pub mod runner;
pub mod service;
pub mod session;
pub mod store;

pub use errors::ServiceError;
pub use models::ApiResponse;
pub use models::DiagnosticRequest;
pub use models::OutputFormat;
pub use models::SessionStatus;
pub use models::TaskResult;
pub use progress::ProgressSampler;
pub use progress::ProgressUpdate;
pub use runner::RunnerAction;
pub use service::DiagnosticService;
pub use session::DiagnosticSession;
pub use store::SessionStore;
