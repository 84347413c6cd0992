use run_in_cloud::{
    content_kind, finished_message, Error, Log, Logs, Phase, PollAction, Request, RunController,
    Secrets, TaskOutcome, TaskResponse,
};

const PATH: &str = "universes/1/places/2/versions/42/luau-execution-sessions/s/tasks/99";

fn snapshot(state: &str, times: Option<(&str, &str)>, error: Option<Error>) -> Option<TaskResponse> {
    TaskResponse::from_parts(
        PATH.to_string(),
        state,
        times.map(|t| t.0.to_string()),
        times.map(|t| t.1.to_string()),
        error,
        None,
    )
}

fn one_page(messages: &[&str], token: &str) -> Logs {
    Logs {
        logs: vec![Log { messages: messages.iter().map(|s| s.to_string()).collect() }],
        next_page_token: token.to_string(),
    }
}

struct Trace {
    requests: Vec<String>,
    waits: Vec<u64>,
    report: Option<String>,
}

/// Runs the controller against scripted responses. Returns the outcome, or
/// the exit status where the run gave up, and what was asked for.
fn drive(
    polls: Vec<Option<TaskResponse>>,
    pages: Vec<Logs>,
) -> (Result<TaskOutcome, i32>, Trace) {
    let secrets = Secrets { key: "k".to_string(), universe_id: 1, place_id: 2 };
    let mut run = RunController::new(&secrets, content_kind("rbxl").unwrap());
    let mut polls = polls.into_iter();
    let mut pages = pages.into_iter();
    let mut trace = Trace { requests: vec![], waits: vec![], report: None };
    loop {
        match run.next_request() {
            Request::Publish { url, content_type } => {
                assert_eq!(content_type, "application/octet-stream");
                trace.requests.push(url);
                run = run.on_published(42);
            }
            Request::CreateTask { url } => {
                trace.requests.push(url);
                run = run.on_created(PATH);
            }
            Request::ReadStatus { url, after_seconds } => {
                trace.requests.push(url);
                trace.waits.push(after_seconds);
                let (next, action) = run.on_status(polls.next().unwrap());
                run = next;
                if action == PollAction::Finish {
                    if let Phase::FetchingLogs { job, .. } = &run.phase {
                        trace.report =
                            Some(finished_message(&job.create_time, &job.update_time).unwrap());
                    }
                }
            }
            Request::ReadLogs { url } => {
                trace.requests.push(url);
                run = run.on_page(pages.next().unwrap());
            }
            Request::Done => break,
            Request::Exit(code) => return (Err(code), trace),
        }
    }
    assert!(polls.next().is_none());
    assert!(pages.next().is_none());
    (Ok(run.into_outcome()), trace)
}

#[test]
fn end_to_end_success() {
    let polls = vec![
        snapshot("PROCESSING", None, None),
        snapshot("PROCESSING", None, None),
        snapshot("COMPLETE", Some(("2024-01-01T00:00:00Z", "2024-01-01T00:00:10Z")), None),
    ];
    let pages = vec![one_page(&["hello"], "next"), one_page(&["world"], "")];
    let (outcome, trace) = drive(polls, pages);
    let outcome = outcome.unwrap();
    let task = format!("https://apis.roblox.com/cloud/v2/{PATH}");
    assert_eq!(
        trace.requests,
        vec![
            "https://apis.roblox.com/universes/v1/1/places/2/versions?VersionType=Published".to_string(),
            "https://apis.roblox.com/cloud/v2/universes/1/places/2/versions/42/luau-execution-session-tasks".to_string(),
            task.clone(),
            task.clone(),
            task.clone(),
            format!("{task}/logs?maxPageSize=10000&pageToken="),
            format!("{task}/logs?maxPageSize=10000&pageToken=next"),
        ]
    );
    assert_eq!(trace.waits, vec![0, 3, 3]);
    assert_eq!(trace.report.as_deref(), Some("task finished executing in 10s!"));
    assert_eq!(outcome.logs, vec!["hello", "world"]);
    assert!(outcome.job_error.is_none());
    assert_eq!(outcome.exit_status(), 0);
}

#[test]
fn end_to_end_job_failure() {
    let error = Error { code: "E1".to_string(), message: "boom".to_string() };
    let polls = vec![snapshot("QUEUED", None, None), snapshot("FAILED", None, Some(error))];
    let pages = vec![one_page(&["before the error"], "")];
    let (outcome, trace) = drive(polls, pages);
    let outcome = outcome.unwrap();
    assert_eq!(trace.report.as_deref(), Some("task finished executing!"));
    assert_eq!(outcome.logs, vec!["before the error"]);
    let e = outcome.job_error.as_ref().unwrap();
    assert_eq!((e.code.as_str(), e.message.as_str()), ("E1", "boom"));
    assert_eq!(outcome.exit_status(), 0);
}

#[test]
fn end_to_end_three_failed_reads_exit_non_zero() {
    let (outcome, trace) = drive(vec![None, None, None], vec![]);
    assert_eq!(outcome.err(), Some(1));
    assert_eq!(trace.waits, vec![0, 6, 12]);
    assert_eq!(trace.requests.len(), 5);
}

#[test]
fn failures_between_progress_keep_the_longer_wait() {
    let polls = vec![
        None,
        snapshot("PROCESSING", None, None),
        None,
        snapshot("COMPLETE", None, None),
    ];
    let (outcome, trace) = drive(polls, vec![one_page(&[], "")]);
    assert!(outcome.unwrap().logs.is_empty());
    assert_eq!(trace.waits, vec![0, 6, 6, 12]);
}

#[test]
fn undecodable_status_spends_a_retry() {
    let polls = vec![
        snapshot("SOMETHING_NEW", None, None),
        snapshot("SOMETHING_NEW", None, None),
        snapshot("COMPLETE", None, None),
    ];
    let (outcome, trace) = drive(polls, vec![one_page(&["x"], "")]);
    assert_eq!(outcome.unwrap().logs, vec!["x"]);
    assert_eq!(trace.waits, vec![0, 6, 12]);
}
