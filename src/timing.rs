use vstd::prelude::*;

verus! {

/// Nanoseconds in one second.
pub const NANOS_PER_SECOND: u32 = 1_000_000_000;

/// What `humantime::parse_rfc3339` reads from a text, as seconds and
/// nanoseconds after the Unix epoch; `None` where it refuses the text.
pub uninterp spec fn rfc3339_instant(s: Seq<char>) -> Option<(u64, u32)>;

/// What `humantime::format_duration` renders for a duration of `secs`
/// seconds and `nanos` nanoseconds.
pub uninterp spec fn humantime_text(secs: u64, nanos: u32) -> Seq<char>;

/// Relies on `humantime::parse_rfc3339`: it returns a `SystemTime` no earlier
/// than the Unix epoch, whose distance from it is read here as whole seconds
/// and a fraction below one second.
#[verifier::external_body]
fn parse_rfc3339(s: &str) -> (r: Option<(u64, u32)>)
    ensures
        r == rfc3339_instant(s@),
        r matches Some(t) ==> t.1 < NANOS_PER_SECOND,
{
    humantime::parse_rfc3339(s).ok().and_then(|t| t.duration_since(std::time::UNIX_EPOCH).ok()).map(
        |d| (d.as_secs(), d.subsec_nanos()),
    )
}

/// Relies on `humantime::format_duration`, rendered through its `Display`.
/// `Duration::new` cannot overflow: the fraction is below one second.
#[verifier::external_body]
fn format_duration(secs: u64, nanos: u32) -> (r: String)
    requires
        nanos < NANOS_PER_SECOND,
    ensures
        r@ == humantime_text(secs, nanos),
{
    humantime::format_duration(std::time::Duration::new(secs, nanos)).to_string()
}

/// A point in time, or a span of it: whole seconds and the nanoseconds past them.
#[derive(Clone, Copy, Debug, PartialEq, Eq, Structural)]
pub struct TimeSpan {
    pub secs: u64,
    pub nanos: u32,
}

impl TimeSpan {
    pub open spec fn wf(self) -> bool {
        self.nanos < NANOS_PER_SECOND
    }

    /// The span in nanoseconds.
    pub open spec fn total_nanos(self) -> int {
        self.secs * NANOS_PER_SECOND + self.nanos
    }
}

/// Why the time a task took cannot be told.
#[derive(Clone, Copy, Debug, PartialEq, Eq, Structural)]
pub enum TimeError {
    /// A timestamp is not an RFC 3339 UTC timestamp.
    InvalidTimestamp,
    /// The task was last updated before it was created.
    UpdatedBeforeCreated,
}

/// The time from `created` to `updated`, which must not come first.
pub fn elapsed(created: TimeSpan, updated: TimeSpan) -> (r: Result<TimeSpan, TimeError>)
    requires
        created.wf(),
        updated.wf(),
    ensures
        r is Ok <==> created.total_nanos() <= updated.total_nanos(),
        r matches Ok(d) ==> d.wf() && d.total_nanos() == updated.total_nanos()
            - created.total_nanos(),
        r matches Err(e) ==> e == TimeError::UpdatedBeforeCreated,
{
    if updated.secs < created.secs || (updated.secs == created.secs && updated.nanos
        < created.nanos) {
        Err(TimeError::UpdatedBeforeCreated)
    } else if updated.nanos >= created.nanos {
        Ok(TimeSpan { secs: updated.secs - created.secs, nanos: updated.nanos - created.nanos })
    } else {
        Ok(
            TimeSpan {
                secs: updated.secs - created.secs - 1,
                nanos: NANOS_PER_SECOND - created.nanos + updated.nanos,
            },
        )
    }
}

pub open spec fn spec_completion_message(elapsed_text: Option<Seq<char>>) -> Seq<char> {
    match elapsed_text {
        Some(t) => "task finished executing in "@ + t + "!"@,
        None => "task finished executing!"@,
    }
}

/// The line that reports a finished task, with the time it took where known.
pub fn completion_message(elapsed_text: Option<&str>) -> (r: String)
    ensures
        r@ == spec_completion_message(
            match elapsed_text {
                Some(t) => Some(t@),
                None => None,
            },
        ),
{
    match elapsed_text {
        Some(t) => {
            let mut m = String::from_str("task finished executing in ");
            m.append(t);
            m.append("!");
            m
        },
        None => String::from_str("task finished executing!"),
    }
}

pub open spec fn span_of(t: (u64, u32)) -> TimeSpan {
    TimeSpan { secs: t.0, nanos: t.1 }
}

/// The report line for a task with the given creation and update times: with
/// both, the time between them; with one missing, none.
pub open spec fn spec_finished_message(created: Option<Seq<char>>, updated: Option<Seq<char>>) -> Result<
    Seq<char>,
    TimeError,
> {
    match (created, updated) {
        (Some(c), Some(u)) => match (rfc3339_instant(c), rfc3339_instant(u)) {
            (Some(a), Some(b)) => if span_of(a).total_nanos() <= span_of(b).total_nanos() {
                let d = span_of(b).total_nanos() - span_of(a).total_nanos();
                Ok(
                    spec_completion_message(
                        Some(
                            humantime_text(
                                (d / NANOS_PER_SECOND as int) as u64,
                                (d % NANOS_PER_SECOND as int) as u32,
                            ),
                        ),
                    ),
                )
            } else {
                Err(TimeError::UpdatedBeforeCreated)
            },
            _ => Err(TimeError::InvalidTimestamp),
        },
        _ => Ok(spec_completion_message(None)),
    }
}

pub open spec fn opt_view(s: Option<String>) -> Option<Seq<char>> {
    match s {
        Some(t) => Some(t@),
        None => None,
    }
}

/// Tells how long a finished task ran, from its creation and update times.
pub fn finished_message(create_time: &Option<String>, update_time: &Option<String>) -> (r: Result<
    String,
    TimeError,
>)
    ensures
        match (r, spec_finished_message(opt_view(*create_time), opt_view(*update_time))) {
            (Ok(m), Ok(s)) => m@ == s,
            (Err(e), Err(f)) => e == f,
            _ => false,
        },
{
    match (create_time, update_time) {
        (Some(c), Some(u)) => {
            let updated = parse_rfc3339(u.as_str());
            let created = parse_rfc3339(c.as_str());
            match (created, updated) {
                (Some(a), Some(b)) => {
                    let d = elapsed(TimeSpan { secs: a.0, nanos: a.1 }, TimeSpan { secs: b.0, nanos: b.1 })?;
                    proof {
                        let n = d.total_nanos();
                        assert(n / NANOS_PER_SECOND as int == d.secs) by (nonlinear_arith)
                            requires n == d.secs * NANOS_PER_SECOND + d.nanos, d.nanos < NANOS_PER_SECOND;
                        assert(n % NANOS_PER_SECOND as int == d.nanos) by (nonlinear_arith)
                            requires n == d.secs * NANOS_PER_SECOND + d.nanos, d.nanos < NANOS_PER_SECOND;
                    }
                    let text = format_duration(d.secs, d.nanos);
                    Ok(completion_message(Some(text.as_str())))
                },
                _ => Err(TimeError::InvalidTimestamp),
            }
        },
        _ => Ok(completion_message(None)),
    }
}

} // verus!
