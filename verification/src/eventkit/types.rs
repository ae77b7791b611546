//! Records exchanged with the calendar and reminders store.

use vstd::prelude::*;

verus! {

/// A calendar event read from the calendar store.
#[derive(Debug, Clone, PartialEq)]
pub struct CalendarEvent {
    /// Stable iCalendar UID; the primary dedup key.
    pub ical_uid: String,
    /// Identifier of the calendar the event belongs to.
    pub calendar_id: String,
    /// Display name of the source calendar.
    pub calendar_title: String,
    /// Event title.
    pub title: String,
    /// Free-text notes.
    pub notes: Option<String>,
    /// RFC 3339 UTC start time.
    pub start_date: String,
    /// RFC 3339 UTC end time.
    pub end_date: String,
    /// True when the event spans whole days.
    pub is_all_day: bool,
    /// Organiser display name, if available.
    pub organizer: Option<String>,
    /// Location string, if set.
    pub location: Option<String>,
    /// Unix timestamp (seconds) when the event was fetched.
    pub fetched_at: i64,
}

/// A reminder to be written to the reminders store.
#[derive(Debug, Clone, PartialEq)]
pub struct Reminder {
    /// Reminder title; must not be blank.
    pub title: String,
    /// Optional free-text notes.
    pub notes: Option<String>,
    /// Optional RFC 3339 due date.
    pub due_date: Option<String>,
    /// Priority 0–9 (0 = none, 1 = high, 5 = medium, 9 = low).
    pub priority: Option<u8>,
    /// Target list name; the default list when absent.
    pub list_name: Option<String>,
}

/// A row of the local event cache.
#[derive(Debug, Clone)]
pub struct CachedEvent {
    pub store_id: String,
    pub ical_uid: String,
    pub calendar_id: String,
    pub fetched_at: i64,
}

} // verus!
