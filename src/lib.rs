//! Drives a remote script-execution workflow: publish a place file, submit a
//! Luau execution task bound to the published version, poll it with a bounded
//! exponential backoff until it is terminal, then collect its paginated logs.
//!
//! The modules hold the decisions of that workflow as verified functions; the
//! network, the file system and the terminal are left to the caller.

mod api;
mod controller;
mod lifecycle;
mod secrets;
mod text;
mod timing;

pub use api::{
    content_kind, create_task_url, logs_url, publish_url, task_endpoint, ContentKind, Error, Log,
    Logs, Output, PublishError, TaskResponse, TaskState, API_ROOT, MAX_PAGE_SIZE,
};
pub use controller::{Phase, Request, RunController};
pub use lifecycle::{
    messages, Backoff, LogCollector, PollAction, TaskOutcome, INITIAL_DELAY_SECONDS, MAX_RETRIES,
    RETRIES_EXHAUSTED_EXIT,
};
pub use secrets::Secrets;
pub use text::same_text;
pub use timing::{completion_message, elapsed, finished_message, TimeError, TimeSpan};
