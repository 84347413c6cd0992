use crate::api::{logs_url, spec_logs_url, Error, Log, Logs, TaskResponse, TaskState};
use vstd::prelude::*;

verus! {

/// The number of failed status reads after which a poll loop gives up.
pub const MAX_RETRIES: u16 = 3;

/// The wait, in seconds, before the first status read is repeated.
pub const INITIAL_DELAY_SECONDS: u64 = 3;

/// The wait after `failures` failed status reads: it doubles with each one.
pub open spec fn backoff_delay(failures: nat) -> nat
    decreases failures,
{
    if failures == 0 {
        INITIAL_DELAY_SECONDS as nat
    } else {
        2 * backoff_delay((failures - 1) as nat)
    }
}

/// The counters of one poll loop.
#[derive(Clone, Copy, Debug, PartialEq, Eq, Structural)]
pub struct Backoff {
    pub delay_seconds: u64,
    pub retries_remaining: u16,
}

/// What the poll loop does after one status read.
#[derive(Clone, Copy, Debug, PartialEq, Eq, Structural)]
pub enum PollAction {
    /// The task is terminal: leave the loop with this snapshot.
    Finish,
    /// Wait this many seconds, then read the status again.
    Wait(u64),
    /// No retries are left: the run ends with a non-zero exit status.
    GiveUp,
}

/// The counters and the action after one status read. `status` is the task's
/// state, or `None` where the read failed or its response could not be decoded.
pub open spec fn spec_poll_step(b: Backoff, status: Option<TaskState>) -> (Backoff, PollAction) {
    match status {
        Some(s) => if s.spec_is_terminal() {
            (b, PollAction::Finish)
        } else {
            (b, PollAction::Wait(b.delay_seconds))
        },
        None => {
            let next = Backoff {
                delay_seconds: (2 * b.delay_seconds) as u64,
                retries_remaining: (b.retries_remaining - 1) as u16,
            };
            if next.retries_remaining == 0 {
                (next, PollAction::GiveUp)
            } else {
                (next, PollAction::Wait(next.delay_seconds))
            }
        },
    }
}

impl Backoff {
    /// The number of failures that the counters have seen.
    pub open spec fn failures(self) -> nat {
        (MAX_RETRIES - self.retries_remaining) as nat
    }

    /// Counters that `initial` and failed reads can produce: the delay is the
    /// one that follows the failures seen so far.
    pub open spec fn wf(self) -> bool {
        &&& self.retries_remaining <= MAX_RETRIES
        &&& self.delay_seconds as nat == backoff_delay(self.failures())
    }

    /// The loop still reads the status.
    pub open spec fn is_live(self) -> bool {
        self.retries_remaining > 0
    }

    pub open spec fn spec_initial() -> Backoff {
        Backoff { delay_seconds: INITIAL_DELAY_SECONDS, retries_remaining: MAX_RETRIES }
    }

    pub fn initial() -> (r: Backoff)
        ensures
            r == Backoff::spec_initial(),
            r.wf(),
            r.is_live(),
            r.delay_seconds == INITIAL_DELAY_SECONDS,
            r.retries_remaining == MAX_RETRIES,
    {
        Backoff { delay_seconds: INITIAL_DELAY_SECONDS, retries_remaining: MAX_RETRIES }
    }

    /// Decides what follows one status read: a terminal state ends the loop,
    /// another state waits without spending a retry, and a failed read spends
    /// one and doubles the delay before the wait, or gives up when none is left.
    pub fn poll_step(&mut self, status: Option<TaskState>) -> (r: PollAction)
        requires
            old(self).wf(),
            old(self).is_live(),
        ensures
            (*final(self), r) == spec_poll_step(*old(self), status),
            final(self).wf(),
            r == PollAction::GiveUp <==> !final(self).is_live(),
    {
        match status {
            Some(s) => {
                if s.is_terminal() {
                    PollAction::Finish
                } else {
                    PollAction::Wait(self.delay_seconds)
                }
            },
            None => {
                proof {
                    reveal_with_fuel(backoff_delay, 4);
                }
                self.retries_remaining = self.retries_remaining - 1;
                self.delay_seconds = self.delay_seconds * 2;
                if self.retries_remaining == 0 {
                    PollAction::GiveUp
                } else {
                    PollAction::Wait(self.delay_seconds)
                }
            },
        }
    }
}

/// Every message of `logs`, in order: the messages of each entry in turn.
pub open spec fn all_messages(logs: Seq<Log>) -> Seq<String>
    decreases logs.len(),
{
    if logs.len() == 0 {
        Seq::empty()
    } else {
        all_messages(logs.drop_last()) + logs.last().messages@
    }
}

/// Flattens log entries into their messages, in order.
pub fn messages(logs: &Vec<Log>) -> (r: Vec<String>)
    ensures
        r@ == all_messages(logs@),
{
    let mut out: Vec<String> = Vec::new();
    let mut i: usize = 0;
    while i < logs.len()
        invariant
            i <= logs@.len(),
            out@ == all_messages(logs@.subrange(0, i as int)),
        decreases logs@.len() - i,
    {
        let entry = &logs[i];
        let ghost before = out@;
        let mut j: usize = 0;
        while j < entry.messages.len()
            invariant
                j <= entry.messages@.len(),
                out@ == before + entry.messages@.subrange(0, j as int),
            decreases entry.messages@.len() - j,
        {
            out.push(entry.messages[j].clone());
            assert(entry.messages@.subrange(0, j + 1) =~= entry.messages@.subrange(0, j as int).push(
                entry.messages@[j as int],
            ));
            j = j + 1;
        }
        assert(entry.messages@.subrange(0, j as int) =~= entry.messages@);
        assert(logs@.subrange(0, i + 1).drop_last() =~= logs@.subrange(0, i as int));
        i = i + 1;
    }
    assert(logs@.subrange(0, i as int) =~= logs@);
    out
}

/// What the pagination has gathered: the entries read so far, the token of
/// the next page, and whether the last page has been read.
pub struct LogsView {
    pub logs: Seq<Log>,
    pub next_page_token: Seq<char>,
    pub finished: bool,
}

/// Gathers the pages of a task's logs in the order they are fetched.
pub struct LogCollector {
    pub logs: Vec<Log>,
    pub next_page_token: String,
    pub finished: bool,
}

/// The pagination before any page is read.
pub open spec fn logs_start() -> LogsView {
    LogsView { logs: Seq::empty(), next_page_token: Seq::empty(), finished: false }
}

/// The pagination after one more page: its entries follow the others, its
/// token is the next one, and an empty token ends it.
pub open spec fn logs_accept(v: LogsView, page: Logs) -> LogsView {
    LogsView {
        logs: v.logs + page.logs@,
        next_page_token: page.next_page_token@,
        finished: page.next_page_token@.len() == 0,
    }
}

impl View for LogCollector {
    type V = LogsView;

    open spec fn view(&self) -> LogsView {
        LogsView {
            logs: self.logs@,
            next_page_token: self.next_page_token@,
            finished: self.finished,
        }
    }
}

impl LogCollector {
    pub fn new() -> (r: LogCollector)
        ensures
            r@ == logs_start(),
    {
        LogCollector { logs: Vec::new(), next_page_token: String::new(), finished: false }
    }

    /// The address of the next page under `endpoint`, or `None` once the
    /// last page has been read.
    pub fn next_url(&self, endpoint: &str) -> (r: Option<String>)
        ensures
            self@.finished ==> r.is_none(),
            !self@.finished ==> (r matches Some(u) && u@ == spec_logs_url(
                endpoint@,
                self@.next_page_token,
            )),
    {
        if self.finished {
            None
        } else {
            Some(logs_url(endpoint, self.next_page_token.as_str()))
        }
    }

    /// Takes in the next page.
    pub fn accept_page(&mut self, page: Logs)
        requires
            !old(self)@.finished,
        ensures
            final(self)@ == logs_accept(old(self)@, page),
    {
        let Logs { logs: mut entries_vec, next_page_token } = page;
        self.logs.append(&mut entries_vec);
        self.finished = next_page_token.unicode_len() == 0;
        self.next_page_token = next_page_token;
    }
}

/// What a run hands back: the task's log messages in order, and the error
/// that the task itself reported, if any.
pub struct TaskOutcome {
    pub logs: Vec<String>,
    pub job_error: Option<Error>,
}

/// The exit status of a run that gave up polling.
pub const RETRIES_EXHAUSTED_EXIT: i32 = 1;

impl TaskOutcome {
    /// Puts together the outcome of a finished task and its gathered logs.
    pub fn new(job: TaskResponse, collected: LogCollector) -> (r: TaskOutcome)
        ensures
            r.logs@ == all_messages(collected@.logs),
            r.job_error == job.error,
    {
        TaskOutcome { logs: messages(&collected.logs), job_error: job.error }
    }

    /// A run that reached a terminal task succeeds, whether or not the task
    /// itself failed: its error is reported as output.
    pub fn exit_status(&self) -> (r: i32)
        ensures
            r == 0,
    {
        0
    }
}

/// Every poll loop waits `3 * 2^k` seconds after its `k`-th failed status
/// read, and gives up at the third.
pub proof fn lemma_backoff_schedule()
    ensures
        ({
            let b0 = Backoff { delay_seconds: INITIAL_DELAY_SECONDS, retries_remaining: MAX_RETRIES };
            let (b1, a1) = spec_poll_step(b0, None);
            let (b2, a2) = spec_poll_step(b1, None);
            let (b3, a3) = spec_poll_step(b2, None);
            &&& b0.delay_seconds == 3 && b1.delay_seconds == 6 && b2.delay_seconds == 12
            &&& a1 == PollAction::Wait(6) && a2 == PollAction::Wait(12)
            &&& a3 == PollAction::GiveUp
            &&& b1.is_live() && b2.is_live() && !b3.is_live()
        }),
{
}

/// A failed status read spends one retry and doubles the wait, whatever
/// states were read before it; the loop survives at most three of them.
pub proof fn lemma_failure_spends_retry(b: Backoff)
    requires
        b.wf(),
        b.is_live(),
    ensures
        spec_poll_step(b, None).0.failures() == b.failures() + 1,
        spec_poll_step(b, None).0.delay_seconds == 2 * b.delay_seconds,
        b.failures() < MAX_RETRIES,
        spec_poll_step(b, None).1 == PollAction::GiveUp <==> b.failures() + 1 == MAX_RETRIES,
{
    reveal_with_fuel(backoff_delay, 4);
}

/// A status read ends the loop exactly when the state is complete or failed;
/// any other state leaves the counters as they were, so earlier non-terminal
/// reads have no bearing on when a terminal one ends the loop.
pub proof fn lemma_terminal_detection(b: Backoff, s: TaskState)
    requires
        b.wf(),
        b.is_live(),
    ensures
        (spec_poll_step(b, Some(s)).1 == PollAction::Finish) <==> (s == TaskState::Complete || s
            == TaskState::Failed),
        !s.spec_is_terminal() ==> spec_poll_step(b, Some(s)) == (b, PollAction::Wait(b.delay_seconds)),
{
}

/// Reading the same non-terminal state again changes nothing: the second read
/// decides as the first did and leaves the same counters.
pub proof fn lemma_status_read_idempotent(b: Backoff, s: TaskState)
    requires
        b.wf(),
        b.is_live(),
        !s.spec_is_terminal(),
    ensures
        spec_poll_step(spec_poll_step(b, Some(s)).0, Some(s)) == spec_poll_step(b, Some(s)),
{
}

/// The pagination after reading `pages` in turn.
pub open spec fn logs_feed(v: LogsView, pages: Seq<Logs>) -> LogsView
    decreases pages.len(),
{
    if pages.len() == 0 {
        v
    } else {
        logs_accept(logs_feed(v, pages.drop_last()), pages.last())
    }
}

/// The entries of `pages`, page after page.
pub open spec fn pages_entries(pages: Seq<Logs>) -> Seq<Log>
    decreases pages.len(),
{
    if pages.len() == 0 {
        Seq::empty()
    } else {
        pages_entries(pages.drop_last()) + pages.last().logs@
    }
}

/// The messages of `pages`, page after page.
pub open spec fn pages_messages(pages: Seq<Logs>) -> Seq<String>
    decreases pages.len(),
{
    if pages.len() == 0 {
        Seq::empty()
    } else {
        pages_messages(pages.drop_last()) + all_messages(pages.last().logs@)
    }
}

proof fn lemma_all_messages_concat(a: Seq<Log>, b: Seq<Log>)
    ensures
        all_messages(a + b) == all_messages(a) + all_messages(b),
    decreases b.len(),
{
    if b.len() == 0 {
        assert(a + b =~= a);
        assert(all_messages(a) + all_messages(b) =~= all_messages(a));
    } else {
        lemma_all_messages_concat(a, b.drop_last());
        assert((a + b).drop_last() =~= a + b.drop_last());
        assert(all_messages(a) + all_messages(b) =~= all_messages(a) + all_messages(b.drop_last())
            + b.last().messages@);
    }
}

proof fn lemma_entries_messages(pages: Seq<Logs>)
    ensures
        all_messages(pages_entries(pages)) == pages_messages(pages),
    decreases pages.len(),
{
    if pages.len() > 0 {
        lemma_entries_messages(pages.drop_last());
        lemma_all_messages_concat(pages_entries(pages.drop_last()), pages.last().logs@);
    }
}

proof fn lemma_feed_from_start(pages: Seq<Logs>)
    ensures
        logs_feed(logs_start(), pages).logs == pages_entries(pages),
        pages.len() > 0 ==> logs_feed(logs_start(), pages).finished == (
        pages.last().next_page_token@.len() == 0),
        pages.len() == 0 ==> !logs_feed(logs_start(), pages).finished,
    decreases pages.len(),
{
    if pages.len() > 0 {
        lemma_feed_from_start(pages.drop_last());
    }
}

/// Pages whose tokens chain to an empty one are all fetched, one request
/// each and no more, and their entries are gathered in the order of fetching.
pub proof fn lemma_pagination_order(pages: Seq<Logs>)
    requires
        pages.len() > 0,
        forall|i: int| 0 <= i < pages.len() - 1 ==> #[trigger] pages[i].next_page_token@.len() > 0,
        pages.last().next_page_token@.len() == 0,
    ensures
        logs_feed(logs_start(), pages).logs == pages_entries(pages),
        all_messages(logs_feed(logs_start(), pages).logs) == pages_messages(pages),
        logs_feed(logs_start(), pages).finished,
        forall|k: int| 0 <= k < pages.len() ==> !#[trigger] logs_feed(logs_start(), pages.take(k)).finished,
{
    lemma_feed_from_start(pages);
    lemma_entries_messages(pages);
    assert forall|k: int| 0 <= k < pages.len() implies !#[trigger] logs_feed(logs_start(), pages.take(k)).finished by {
        lemma_feed_from_start(pages.take(k));
        if k > 0 {
            assert(pages.take(k).last() == pages[k - 1]);
        }
    }
}

} // verus!
