use run_in_cloud::{
    messages, Backoff, Error, Log, LogCollector, Logs, PollAction, TaskOutcome, TaskResponse,
    TaskState, INITIAL_DELAY_SECONDS, MAX_RETRIES, RETRIES_EXHAUSTED_EXIT,
};

fn page(entries: &[&[&str]], token: &str) -> Logs {
    Logs {
        logs: entries
            .iter()
            .map(|m| Log { messages: m.iter().map(|s| s.to_string()).collect() })
            .collect(),
        next_page_token: token.to_string(),
    }
}

fn task(state: TaskState, error: Option<Error>) -> TaskResponse {
    TaskResponse {
        path: "universes/1/places/2/versions/42/luau-execution-sessions/s/tasks/99".to_string(),
        state,
        create_time: None,
        update_time: None,
        error,
        output: None,
    }
}

#[test]
fn backoff_starts_at_three_seconds_and_three_retries() {
    let b = Backoff::initial();
    assert_eq!(b.delay_seconds, 3);
    assert_eq!(b.retries_remaining, 3);
    assert_eq!(INITIAL_DELAY_SECONDS, 3);
    assert_eq!(MAX_RETRIES, 3);
}

#[test]
fn three_failures_give_up() {
    let mut b = Backoff::initial();
    let mut delays = vec![b.delay_seconds];
    let mut reads = 0;
    loop {
        reads += 1;
        match b.poll_step(None) {
            PollAction::Wait(d) => delays.push(d),
            PollAction::GiveUp => break,
            PollAction::Finish => panic!("a failed read cannot finish"),
        }
    }
    assert_eq!(delays, vec![3, 6, 12]);
    assert_eq!(reads, 3);
    assert_eq!(b.retries_remaining, 0);
    assert_ne!(RETRIES_EXHAUSTED_EXIT, 0);
}

#[test]
fn processing_never_ends_the_loop() {
    let mut b = Backoff::initial();
    for _ in 0..10 {
        assert_eq!(b.poll_step(Some(TaskState::Processing)), PollAction::Wait(3));
    }
    assert_eq!(b, Backoff::initial());
}

#[test]
fn terminal_state_ends_the_loop_at_once() {
    for terminal in [TaskState::Complete, TaskState::Failed] {
        let mut b = Backoff::initial();
        assert_eq!(b.poll_step(Some(TaskState::Queued)), PollAction::Wait(3));
        assert_eq!(b.poll_step(None), PollAction::Wait(6));
        assert_eq!(b.poll_step(Some(TaskState::Processing)), PollAction::Wait(6));
        assert_eq!(b.poll_step(Some(terminal)), PollAction::Finish);
        assert_eq!(b.retries_remaining, 2);
    }
}

#[test]
fn repeated_status_reads_change_nothing() {
    let mut b = Backoff::initial();
    b.poll_step(None);
    let before = b;
    let first = b.poll_step(Some(TaskState::Cancelled));
    let second = b.poll_step(Some(TaskState::Cancelled));
    assert_eq!(first, second);
    assert_eq!(b, before);
}

#[test]
fn three_pages_in_order() {
    let pages = vec![
        page(&[&["one", "two"]], "a"),
        page(&[&["three"], &[]], "b"),
        page(&[&["four"]], ""),
    ];
    let mut c = LogCollector::new();
    let mut fetched = Vec::new();
    let mut pages = pages.into_iter();
    while let Some(url) = c.next_url("E") {
        fetched.push(url);
        c.accept_page(pages.next().unwrap());
    }
    assert_eq!(
        fetched,
        vec![
            "E/logs?maxPageSize=10000&pageToken=",
            "E/logs?maxPageSize=10000&pageToken=a",
            "E/logs?maxPageSize=10000&pageToken=b",
        ]
    );
    assert_eq!(messages(&c.logs), vec!["one", "two", "three", "four"]);
    assert!(c.finished);
}

#[test]
fn empty_logs_flatten_to_nothing() {
    assert!(messages(&Vec::new()).is_empty());
    assert!(messages(&vec![Log { messages: vec![] }]).is_empty());
}

#[test]
fn outcome_passes_job_error_through() {
    let mut c = LogCollector::new();
    c.accept_page(page(&[&["partial"]], ""));
    let outcome = TaskOutcome::new(
        task(TaskState::Failed, Some(Error { code: "E1".to_string(), message: "boom".to_string() })),
        c,
    );
    assert_eq!(outcome.logs, vec!["partial"]);
    let e = outcome.job_error.as_ref().unwrap();
    assert_eq!(e.code, "E1");
    assert_eq!(e.message, "boom");
    assert_eq!(outcome.exit_status(), 0);
}
