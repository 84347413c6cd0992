use crate::text::{decimal, decimal_spelling, same_text};
use vstd::prelude::*;

verus! {

/// Declares `serde_json::Value`, carried opaquely in a task's results.
#[verifier::external_type_specification]
#[verifier::external_body]
pub struct ExJsonValue(serde_json::Value);

/// The host that serves every endpoint of the service.
pub const API_ROOT: &'static str = "https://apis.roblox.com";

/// The encoding of a place file, decided by its extension.
#[derive(Clone, Copy, Debug, PartialEq, Eq, Structural)]
pub enum ContentKind {
    Binary,
    Xml,
}

/// Why a place cannot be published.
#[derive(Clone, Copy, Debug, PartialEq, Eq, Structural)]
pub enum PublishError {
    /// The extension is neither `rbxl` nor `rbxlx`.
    UnsupportedFormat,
}

/// The content kind that an extension names, if any.
pub open spec fn kind_of_extension(ext: Seq<char>) -> Option<ContentKind> {
    if ext == "rbxl"@ {
        Some(ContentKind::Binary)
    } else if ext == "rbxlx"@ {
        Some(ContentKind::Xml)
    } else {
        None
    }
}

/// Decides the content kind of a place file from its extension, before any
/// request is made.
pub fn content_kind(extension: &str) -> (r: Result<ContentKind, PublishError>)
    ensures
        r == (match kind_of_extension(extension@) {
            Some(k) => Ok(k),
            None => Err(PublishError::UnsupportedFormat),
        }),
{
    if same_text(extension, "rbxl") {
        Ok(ContentKind::Binary)
    } else if same_text(extension, "rbxlx") {
        Ok(ContentKind::Xml)
    } else {
        Err(PublishError::UnsupportedFormat)
    }
}

impl ContentKind {
    pub open spec fn spec_content_type(self) -> Seq<char> {
        match self {
            ContentKind::Binary => "application/octet-stream"@,
            ContentKind::Xml => "application/xml"@,
        }
    }

    /// The `content-type` header that the publish request carries.
    pub fn content_type(&self) -> (r: &'static str)
        ensures
            r@ == self.spec_content_type(),
    {
        match self {
            ContentKind::Binary => "application/octet-stream",
            ContentKind::Xml => "application/xml",
        }
    }
}

/// The state of an execution task as the service reports it.
#[derive(Clone, Copy, Debug, PartialEq, Eq, Structural)]
pub enum TaskState {
    Unspecified,
    Queued,
    Processing,
    Cancelled,
    Complete,
    Failed,
}

/// The state that a wire name stands for.
pub open spec fn state_of_name(name: Seq<char>) -> Option<TaskState> {
    if name == "STATE_UNSPECIFIED"@ {
        Some(TaskState::Unspecified)
    } else if name == "QUEUED"@ {
        Some(TaskState::Queued)
    } else if name == "PROCESSING"@ {
        Some(TaskState::Processing)
    } else if name == "CANCELLED"@ {
        Some(TaskState::Cancelled)
    } else if name == "COMPLETE"@ {
        Some(TaskState::Complete)
    } else if name == "FAILED"@ {
        Some(TaskState::Failed)
    } else {
        None
    }
}

impl TaskState {
    /// Only a complete or a failed task changes no more.
    pub open spec fn spec_is_terminal(self) -> bool {
        self == TaskState::Complete || self == TaskState::Failed
    }

    pub fn is_terminal(&self) -> (r: bool)
        ensures
            r == self.spec_is_terminal(),
    {
        match self {
            TaskState::Complete | TaskState::Failed => true,
            _ => false,
        }
    }

    /// Reads a state from its wire name; an unknown name gives `None`, which
    /// a caller treats as an undecodable response.
    pub fn from_name(name: &str) -> (r: Option<TaskState>)
        ensures
            r == state_of_name(name@),
    {
        if same_text(name, "STATE_UNSPECIFIED") {
            Some(TaskState::Unspecified)
        } else if same_text(name, "QUEUED") {
            Some(TaskState::Queued)
        } else if same_text(name, "PROCESSING") {
            Some(TaskState::Processing)
        } else if same_text(name, "CANCELLED") {
            Some(TaskState::Cancelled)
        } else if same_text(name, "COMPLETE") {
            Some(TaskState::Complete)
        } else if same_text(name, "FAILED") {
            Some(TaskState::Failed)
        } else {
            None
        }
    }
}

/// The error that a task itself reported.
#[derive(Debug)]
pub struct Error {
    pub code: String,
    pub message: String,
}

/// What a task's script returned.
pub struct Output {
    pub results: Vec<serde_json::Value>,
}

/// One snapshot of an execution task.
pub struct TaskResponse {
    pub path: String,
    pub state: TaskState,
    pub create_time: Option<String>,
    pub update_time: Option<String>,
    pub error: Option<Error>,
    pub output: Option<Output>,
}

/// One entry of a page of logs.
#[derive(Debug)]
pub struct Log {
    pub messages: Vec<String>,
}

/// One page of logs; an empty `next_page_token` marks the last page.
#[derive(Debug)]
pub struct Logs {
    pub logs: Vec<Log>,
    pub next_page_token: String,
}

pub open spec fn spec_publish_url(universe_id: u64, place_id: u64) -> Seq<char> {
    API_ROOT@ + "/universes/v1/"@ + decimal_spelling(universe_id as nat) + "/places/"@
        + decimal_spelling(place_id as nat) + "/versions?VersionType=Published"@
}

/// Where a new version of a place is published.
pub fn publish_url(universe_id: u64, place_id: u64) -> (r: String)
    ensures
        r@ == spec_publish_url(universe_id, place_id),
{
    let mut url = String::from_str(API_ROOT);
    url.append("/universes/v1/");
    url.append(decimal(universe_id).as_str());
    url.append("/places/");
    url.append(decimal(place_id).as_str());
    url.append("/versions?VersionType=Published");
    url
}

pub open spec fn spec_create_task_url(universe_id: u64, place_id: u64, place_version: u64) -> Seq<
    char,
> {
    API_ROOT@ + "/cloud/v2/universes/"@ + decimal_spelling(universe_id as nat) + "/places/"@
        + decimal_spelling(place_id as nat) + "/versions/"@ + decimal_spelling(
        place_version as nat,
    ) + "/luau-execution-session-tasks"@
}

/// Where an execution task is created against one published version.
pub fn create_task_url(universe_id: u64, place_id: u64, place_version: u64) -> (r: String)
    ensures
        r@ == spec_create_task_url(universe_id, place_id, place_version),
{
    let mut url = String::from_str(API_ROOT);
    url.append("/cloud/v2/universes/");
    url.append(decimal(universe_id).as_str());
    url.append("/places/");
    url.append(decimal(place_id).as_str());
    url.append("/versions/");
    url.append(decimal(place_version).as_str());
    url.append("/luau-execution-session-tasks");
    url
}

pub open spec fn spec_task_endpoint(path: Seq<char>) -> Seq<char> {
    API_ROOT@ + "/cloud/v2/"@ + path
}

/// Where a task's status is read; its logs live under it.
pub fn task_endpoint(path: &str) -> (r: String)
    ensures
        r@ == spec_task_endpoint(path@),
{
    let mut url = String::from_str(API_ROOT);
    url.append("/cloud/v2/");
    url.append(path);
    url
}

/// The largest page of logs that is asked for.
pub const MAX_PAGE_SIZE: &'static str = "10000";

pub open spec fn spec_logs_url(endpoint: Seq<char>, page_token: Seq<char>) -> Seq<char> {
    endpoint + "/logs?maxPageSize="@ + MAX_PAGE_SIZE@ + "&pageToken="@ + page_token
}

/// Where one page of a task's logs is read; an empty token asks for the first.
pub fn logs_url(endpoint: &str, page_token: &str) -> (r: String)
    ensures
        r@ == spec_logs_url(endpoint@, page_token@),
{
    let mut url = String::from_str(endpoint);
    url.append("/logs?maxPageSize=");
    url.append(MAX_PAGE_SIZE);
    url.append("&pageToken=");
    url.append(page_token);
    url
}

impl TaskResponse {
    /// Builds a snapshot from the fields of a decoded response; a state name
    /// that is not known makes the response undecodable.
    pub fn from_parts(
        path: String,
        state_name: &str,
        create_time: Option<String>,
        update_time: Option<String>,
        error: Option<Error>,
        output: Option<Output>,
    ) -> (r: Option<TaskResponse>)
        ensures
            r is Some <==> state_of_name(state_name@) is Some,
            r matches Some(t) ==> {
                &&& t.path == path
                &&& Some(t.state) == state_of_name(state_name@)
                &&& t.create_time == create_time
                &&& t.update_time == update_time
                &&& t.error == error
                &&& t.output == output
            },
    {
        match TaskState::from_name(state_name) {
            Some(state) => Some(TaskResponse { path, state, create_time, update_time, error, output }),
            None => None,
        }
    }
}

} // verus!
