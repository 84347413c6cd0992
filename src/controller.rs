use crate::api::{
    Logs,
    create_task_url, publish_url, spec_create_task_url, spec_logs_url, spec_publish_url,
    spec_task_endpoint, task_endpoint, ContentKind, TaskResponse,
};
use crate::lifecycle::{
    all_messages, logs_accept, logs_start, spec_poll_step, Backoff, LogCollector, PollAction,
    TaskOutcome, RETRIES_EXHAUSTED_EXIT,
};
use crate::secrets::Secrets;
use vstd::prelude::*;

verus! {

/// Where a run stands.
pub enum Phase {
    /// The place is being published.
    Publishing,
    /// A task is being created against the published version.
    Creating { version: u64 },
    /// The task's status is read, `wait_seconds` after the previous read.
    Polling { endpoint: String, backoff: Backoff, wait_seconds: u64 },
    /// The task is terminal; its logs are read page by page.
    FetchingLogs { endpoint: String, job: TaskResponse, logs: LogCollector },
    /// Status reads failed too often: the run ends without an outcome.
    GaveUp,
}

/// The next thing that a run asks of the service, or how it ends.
pub enum Request {
    Publish { url: String, content_type: &'static str },
    CreateTask { url: String },
    ReadStatus { url: String, after_seconds: u64 },
    ReadLogs { url: String },
    /// Every page is in: the outcome can be taken.
    Done,
    /// The run ends with this exit status.
    Exit(i32),
}

/// The decisions of one run, from publishing a place to gathering the logs of
/// the task that ran against it. The caller performs each request and hands
/// back what came of it; a failed publish, task creation or log read ends the
/// run at the caller, while a failed status read is handed back as `None`.
pub struct RunController {
    pub universe_id: u64,
    pub place_id: u64,
    pub kind: ContentKind,
    pub phase: Phase,
}

impl RunController {
    /// The invariant of a run's phase.
    pub open spec fn wf(&self) -> bool {
        match self.phase {
            Phase::Polling { backoff, .. } => backoff.wf() && backoff.is_live(),
            Phase::FetchingLogs { job, .. } => job.state.spec_is_terminal(),
            _ => true,
        }
    }

    pub fn new(secrets: &Secrets, kind: ContentKind) -> (r: RunController)
        ensures
            r.wf(),
            r.universe_id == secrets.universe_id,
            r.place_id == secrets.place_id,
            r.kind == kind,
            r.phase is Publishing,
    {
        RunController {
            universe_id: secrets.universe_id,
            place_id: secrets.place_id,
            kind,
            phase: Phase::Publishing,
        }
    }

    /// What to do next.
    pub fn next_request(&self) -> (r: Request)
        ensures
            match self.phase {
                Phase::Publishing => r matches Request::Publish { url, content_type } && url@
                    == spec_publish_url(self.universe_id, self.place_id) && content_type@
                    == self.kind.spec_content_type(),
                Phase::Creating { version } => r matches Request::CreateTask { url } && url@
                    == spec_create_task_url(self.universe_id, self.place_id, version),
                Phase::Polling { endpoint, wait_seconds, .. } => r matches Request::ReadStatus {
                    url,
                    after_seconds,
                } && url@ == endpoint@ && after_seconds == wait_seconds,
                Phase::FetchingLogs { endpoint, logs, .. } => if logs@.finished {
                    r is Done
                } else {
                    r matches Request::ReadLogs { url } && url@ == spec_logs_url(
                        endpoint@,
                        logs@.next_page_token,
                    )
                },
                Phase::GaveUp => r == Request::Exit(RETRIES_EXHAUSTED_EXIT),
            },
    {
        match &self.phase {
            Phase::Publishing => Request::Publish {
                url: publish_url(self.universe_id, self.place_id),
                content_type: self.kind.content_type(),
            },
            Phase::Creating { version } => Request::CreateTask {
                url: create_task_url(self.universe_id, self.place_id, *version),
            },
            Phase::Polling { endpoint, wait_seconds, .. } => Request::ReadStatus {
                url: endpoint.clone(),
                after_seconds: *wait_seconds,
            },
            Phase::FetchingLogs { endpoint, logs, .. } => match logs.next_url(endpoint.as_str()) {
                Some(url) => Request::ReadLogs { url },
                None => Request::Done,
            },
            Phase::GaveUp => Request::Exit(RETRIES_EXHAUSTED_EXIT),
        }
    }

    /// The place was published as `version`.
    pub fn on_published(self, version: u64) -> (r: RunController)
        requires
            self.phase is Publishing,
        ensures
            r.wf(),
            r.universe_id == self.universe_id && r.place_id == self.place_id && r.kind
                == self.kind,
            r.phase == (Phase::Creating { version }),
    {
        RunController { phase: Phase::Creating { version }, ..self }
    }

    /// The task was created at `path`; its status is read at once.
    pub fn on_created(self, path: &str) -> (r: RunController)
        requires
            self.phase is Creating,
        ensures
            r.wf(),
            r.universe_id == self.universe_id && r.place_id == self.place_id && r.kind
                == self.kind,
            r.phase matches Phase::Polling { endpoint, backoff, wait_seconds } && endpoint@
                == spec_task_endpoint(path@) && backoff == Backoff::spec_initial() && wait_seconds
                == 0,
    {
        RunController {
            phase: Phase::Polling {
                endpoint: task_endpoint(path),
                backoff: Backoff::initial(),
                wait_seconds: 0,
            },
            ..self
        }
    }

    /// A status read came back: `None` where it failed or could not be
    /// decoded. The returned action says what the poll loop decided.
    pub fn on_status(self, status: Option<TaskResponse>) -> (r: (RunController, PollAction))
        requires
            self.wf(),
            self.phase is Polling,
        ensures
            r.0.wf(),
            r.0.universe_id == self.universe_id && r.0.place_id == self.place_id && r.0.kind
                == self.kind,
            match self.phase {
                Phase::Polling { endpoint, backoff, .. } => {
                    let (next, action) = spec_poll_step(
                        backoff,
                        match status {
                            Some(t) => Some(t.state),
                            None => None,
                        },
                    );
                    &&& r.1 == action
                    &&& match action {
                        PollAction::Finish => r.0.phase matches Phase::FetchingLogs {
                            endpoint: e,
                            job,
                            logs,
                        } && e == endpoint && status == Some(job) && logs@ == logs_start(),
                        PollAction::Wait(d) => r.0.phase == (Phase::Polling {
                            endpoint,
                            backoff: next,
                            wait_seconds: d,
                        }),
                        PollAction::GiveUp => r.0.phase is GaveUp,
                    }
                },
                _ => false,
            },
    {
        let RunController { universe_id, place_id, kind, phase } = self;
        match phase {
            Phase::Polling { endpoint, backoff, .. } => {
                let mut backoff = backoff;
                let state = match &status {
                    Some(t) => Some(t.state),
                    None => None,
                };
                let action = backoff.poll_step(state);
                let phase = match action {
                    PollAction::Finish => {
                        match status {
                            Some(job) => Phase::FetchingLogs {
                                endpoint,
                                job,
                                logs: LogCollector::new(),
                            },
                            None => Phase::GaveUp,
                        }
                    },
                    PollAction::Wait(d) => Phase::Polling { endpoint, backoff, wait_seconds: d },
                    PollAction::GiveUp => Phase::GaveUp,
                };
                (RunController { universe_id, place_id, kind, phase }, action)
            },
            _ => (RunController { universe_id, place_id, kind, phase: Phase::GaveUp }, PollAction::GiveUp),
        }
    }

    /// A page of logs came back.
    pub fn on_page(self, page: Logs) -> (r: RunController)
        requires
            self.wf(),
            self.phase matches Phase::FetchingLogs { logs, .. } && !logs@.finished,
        ensures
            r.wf(),
            r.universe_id == self.universe_id && r.place_id == self.place_id && r.kind
                == self.kind,
            match self.phase {
                Phase::FetchingLogs { endpoint, job, logs } => r.phase matches Phase::FetchingLogs {
                    endpoint: e,
                    job: j,
                    logs: l,
                } && e == endpoint && j == job && l@ == logs_accept(logs@, page),
                _ => false,
            },
    {
        let RunController { universe_id, place_id, kind, phase } = self;
        match phase {
            Phase::FetchingLogs { endpoint, job, logs } => {
                let mut logs = logs;
                logs.accept_page(page);
                RunController {
                    universe_id,
                    place_id,
                    kind,
                    phase: Phase::FetchingLogs { endpoint, job, logs },
                }
            },
            _ => RunController { universe_id, place_id, kind, phase: Phase::GaveUp },
        }
    }

    /// The outcome of a run whose logs are all in: the messages in the order
    /// of fetching, and the error that the task reported.
    pub fn into_outcome(self) -> (r: TaskOutcome)
        requires
            self.phase matches Phase::FetchingLogs { logs, .. } && logs@.finished,
        ensures
            match self.phase {
                Phase::FetchingLogs { job, logs, .. } => r.logs@ == all_messages(logs@.logs)
                    && r.job_error == job.error,
                _ => false,
            },
    {
        match self.phase {
            Phase::FetchingLogs { job, logs, .. } => TaskOutcome::new(job, logs),
            _ => TaskOutcome { logs: Vec::new(), job_error: None },
        }
    }
}

} // verus!
