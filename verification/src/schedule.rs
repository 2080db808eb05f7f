//! Schedule evaluation: whether a cron expression is a valid recurrence
//! rule, its next occurrence after an instant, and the windowing rule that
//! decides whether an agent is due in the current polling window.

use std::str::FromStr;

use vstd::prelude::*;

use crate::model::{Agent, AgentV, Status};

verus! {

/// Whether the cron crate's parser accepts this schedule expression.
pub uninterp spec fn cron_valid(expr: Seq<char>) -> bool;

/// The first occurrence of the schedule strictly after the given Utc instant
/// (seconds since the epoch), if there is one.
pub uninterp spec fn cron_next(expr: Seq<char>, after: i64) -> Option<i64>;

/// Relies on `cron::Schedule::from_str`: whether an expression parses to a
/// recurrence rule is a function of the expression alone.
#[verifier::external_body]
pub fn schedule_is_valid(expr: &str) -> (r: bool)
    ensures
        r == cron_valid(expr@),
{
    cron::Schedule::from_str(expr).is_ok()
}

/// Relies on `cron::Schedule::after` and its iterator, evaluated in Utc: the
/// next matching time is a function of the expression and the instant alone;
/// the search starts one second past the instant, so a hit is strictly
/// later; an expression that does not parse yields nothing. Instants outside
/// the range the chrono crate represents — or close enough to its end that
/// the search's one-second step would leave it, which chrono treats as a
/// panic — are cut off first and yield nothing, so the call returns normally
/// on every `i64`.
#[verifier::external_body]
pub fn next_occurrence(expr: &str, after: i64) -> (r: Option<i64>)
    ensures
        r == cron_next(expr@, after),
        !cron_valid(expr@) ==> r is None,
        r matches Some(n) ==> n > after,
{
    if after >= 8_000_000_000_000 {
        return None;
    }
    let schedule = match cron::Schedule::from_str(expr) {
        Ok(s) => s,
        Err(_) => return None,
    };
    let instant = match chrono::DateTime::<chrono::Utc>::from_timestamp(after, 0) {
        Some(d) => d,
        None => return None,
    };
    schedule.after(&instant).next().map(|d| d.timestamp())
}

/// An agent is due when it is `Active` and its recurrence rule has an
/// occurrence inside the polling window `[now, now + period)`. Occurrences
/// are re-derived from the expression on every decision; a window that
/// passes while nothing is looking is lost, never caught up — the accepted
/// at-least-once, window-granularity model.
pub open spec fn spec_due(a: AgentV, now: i64, period: int) -> bool {
    &&& a.status == Status::Active
    &&& cron_valid(a.schedule)
    &&& match cron_next(a.schedule, now) {
        Some(n) => n < now + period,
        None => false,
    }
}

/// Decide the windowing rule for one agent.
pub fn agent_due(a: &Agent, now: i64, period: i64) -> (r: bool)
    requires
        period > 0,
    ensures
        r == spec_due(a@, now, period as int),
{
    if !(a.status == Status::Active) {
        return false;
    }
    match next_occurrence(a.schedule.as_str(), now) {
        Some(n) => (n as i128) < (now as i128) + (period as i128),
        None => false,
    }
}

} // verus!
