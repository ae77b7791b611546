//! The checks and defaults of the EventKit RPC handlers.
//!
//! `list_events` reads a window of calendar events: `start_ts` defaults to
//! now, `end_ts` to now + 30 days, `limit` to 100 and is clamped to
//! 1–1000; the window must not be empty. `create_reminder` rejects a blank
//! title, a priority above 9, and a due date that is not an RFC 3339
//! timestamp.

use vstd::prelude::*;
use crate::eventkit::types::Reminder;
use crate::text::{blank, i64_to_string, is_blank, owned, push_str, signed_decimal, decimal, u64_to_string};

verus! {

/// Thirty days, in seconds: the default length of the event window.
pub const DEFAULT_WINDOW_SECS: i64 = 2592000;
/// The number of events returned when no limit is given.
pub const DEFAULT_EVENT_LIMIT: usize = 100;
/// The largest accepted event limit.
pub const MAX_EVENT_LIMIT: usize = 1000;

/// The resolved window and limit of a `list_events` call.
#[derive(Debug, Clone, Copy, PartialEq, Eq, Structural)]
pub struct ListWindow {
    pub start: i64,
    pub end: i64,
    pub limit: usize,
}

/// The window start: the given one, or now.
pub open spec fn window_start(start_ts: Option<i64>, now: i64) -> i64 {
    match start_ts {
        Some(s) => s,
        None => now,
    }
}

/// The window end: the given one, or now + 30 days.
pub open spec fn window_end(end_ts: Option<i64>, now: i64) -> i64 {
    match end_ts {
        Some(e) => e,
        None => (now + DEFAULT_WINDOW_SECS) as i64,
    }
}

/// The limit: the given one or 100, clamped to 1–1000.
pub open spec fn window_limit(limit: Option<usize>) -> usize {
    let l = match limit {
        Some(l) => l,
        None => DEFAULT_EVENT_LIMIT,
    };
    if l < 1 {
        1
    } else if l > MAX_EVENT_LIMIT {
        MAX_EVENT_LIMIT
    } else {
        l
    }
}

/// The error for an empty window.
pub open spec fn empty_window_error(start: i64, end: i64) -> Seq<char> {
    "end_ts ("@ + signed_decimal(end as int) + ") must be greater than start_ts ("@
        + signed_decimal(start as int) + ")"@
}

/// Resolve the window of a `list_events` call at time `now` (Unix seconds).
pub fn resolve_list_window(
    start_ts: Option<i64>,
    end_ts: Option<i64>,
    limit: Option<usize>,
    now: i64,
) -> (r: Result<ListWindow, String>)
    requires
        now + DEFAULT_WINDOW_SECS <= i64::MAX,
    ensures
        ({
            let start = window_start(start_ts, now);
            let end = window_end(end_ts, now);
            match r {
                Ok(w) => end > start && w == ListWindow {
                    start,
                    end,
                    limit: window_limit(limit),
                },
                Err(e) => end <= start && e@ == empty_window_error(start, end),
            }
        }),
{
    let start = match start_ts {
        Some(s) => s,
        None => now,
    };
    let default_end = now + DEFAULT_WINDOW_SECS;
    let end = match end_ts {
        Some(e) => e,
        None => default_end,
    };
    let raw = match limit {
        Some(l) => l,
        None => DEFAULT_EVENT_LIMIT,
    };
    let limit = if raw < 1 {
        1
    } else if raw > MAX_EVENT_LIMIT {
        MAX_EVENT_LIMIT
    } else {
        raw
    };
    if end <= start {
        let mut msg = owned("end_ts (");
        push_str(&mut msg, i64_to_string(end).as_str());
        push_str(&mut msg, ") must be greater than start_ts (");
        push_str(&mut msg, i64_to_string(start).as_str());
        push_str(&mut msg, ")");
        return Err(msg);
    }
    Ok(ListWindow { start, end, limit })
}

/// True when `s` parses as a UTC date-time with chrono's `DateTime<Utc>`
/// parser (RFC 3339).
pub uninterp spec fn rfc3339_utc_parses(s: Seq<char>) -> bool;

/// `str::parse::<chrono::DateTime<chrono::Utc>>`, reduced to whether it
/// succeeded. What chrono accepts is named, not restated.
#[verifier::external_body]
fn parses_as_rfc3339(s: &str) -> (b: bool)
    ensures
        b == rfc3339_utc_parses(s@),
{
    s.parse::<chrono::DateTime<chrono::Utc>>().is_ok()
}

/// Why a reminder is rejected.
pub open spec fn reminder_error(r: Reminder, due_is_valid: bool) -> Option<Seq<char>> {
    if is_blank(r.title@) {
        Some("create_reminder: 'title' must not be empty"@)
    } else if r.priority matches Some(p) && p > 9 {
        Some(
            "create_reminder: 'priority' must be 0–9 (got "@ + decimal(r.priority.unwrap() as nat)
                + ")"@,
        )
    } else if r.due_date matches Some(due) && !due_is_valid {
        Some(
            "create_reminder: 'due_date' is not a valid RFC 3339 timestamp (got '"@
                + r.due_date.unwrap()@ + "')"@,
        )
    } else {
        None
    }
}

/// Check a reminder, given whether its due date (if any) parses as an
/// RFC 3339 timestamp.
pub fn validate_reminder_with(r: &Reminder, due_is_valid: bool) -> (res: Result<(), String>)
    ensures
        match reminder_error(*r, due_is_valid) {
            Some(msg) => res matches Err(e) && e@ == msg,
            None => res is Ok,
        },
{
    if blank(r.title.as_str()) {
        return Err(owned("create_reminder: 'title' must not be empty"));
    }
    if let Some(p) = r.priority {
        if p > 9 {
            let mut msg = owned("create_reminder: 'priority' must be 0–9 (got ");
            push_str(&mut msg, u64_to_string(p as u64).as_str());
            push_str(&mut msg, ")");
            return Err(msg);
        }
    }
    if let Some(due) = &r.due_date {
        if !due_is_valid {
            let mut msg = owned("create_reminder: 'due_date' is not a valid RFC 3339 timestamp (got '");
            push_str(&mut msg, due.as_str());
            push_str(&mut msg, "')");
            return Err(msg);
        }
    }
    Ok(())
}

/// Check a reminder before it is written: the title must not be blank, the
/// priority must be 0–9, and the due date must parse as RFC 3339.
pub fn validate_reminder(r: &Reminder) -> (res: Result<(), String>)
    ensures
        match reminder_error(
            *r,
            r.due_date matches Some(d) ==> rfc3339_utc_parses(d@),
        ) {
            Some(msg) => res matches Err(e) && e@ == msg,
            None => res is Ok,
        },
{
    let due_is_valid = match &r.due_date {
        Some(d) => parses_as_rfc3339(d.as_str()),
        None => true,
    };
    validate_reminder_with(r, due_is_valid)
}

/// A window that resolves is never empty and its limit lies in 1–1000.
pub proof fn law_resolved_window_is_sane(start_ts: Option<i64>, end_ts: Option<i64>, limit: Option<usize>, now: i64)
    requires
        now + DEFAULT_WINDOW_SECS <= i64::MAX,
        window_end(end_ts, now) > window_start(start_ts, now),
    ensures
        1 <= window_limit(limit) <= MAX_EVENT_LIMIT,
        window_start(start_ts, now) < window_end(end_ts, now),
{
}

} // verus!
