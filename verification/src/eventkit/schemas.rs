//! Controller schemas for the EventKit bridge.
//!
//! Controllers exposed:
//!   - `eventkit.list_events`     — read calendar events in a UTC timestamp window
//!   - `eventkit.create_reminder` — write a reminder to EventKit Reminders

use vstd::prelude::*;
use crate::controller::{
    ControllerSchema, FieldSchema, FieldShape, RegisteredController, SchemaShape, TypeSchema,
    TypeShape, field_of, fields_shape, schema_of, schema_shape,
};
use crate::text::str_eq;

verus! {

broadcast use crate::controller::lemma_fields_shape_map;

/// The handlers of the eventkit domain.
#[derive(PartialEq, Eq, Structural, Clone, Copy, Debug)]
pub enum EventKitHandler {
    ListEvents,
    CreateReminder,
}

/// Fields of a nested object type.
pub open spec fn eventkit_list_events_out_events_fields() -> Seq<FieldShape> {
    seq![
        field_of("ical_uid", TypeShape::Text, "Stable iCalendar UID — primary dedup key.", true),
        field_of("calendar_id", TypeShape::Text, "EventKit calendar identifier.", true),
        field_of("calendar_title", TypeShape::Text, "Display name of the source calendar.", true),
        field_of("title", TypeShape::Text, "Event title.", true),
        field_of("notes", TypeShape::Optional(Box::new(TypeShape::Text)), "Free-text notes from the event.", false),
        field_of("start_date", TypeShape::Text, "RFC 3339 UTC start time.", true),
        field_of("end_date", TypeShape::Text, "RFC 3339 UTC end time.", true),
        field_of("is_all_day", TypeShape::Bool, "True when the event spans whole days.", true),
        field_of("organizer", TypeShape::Optional(Box::new(TypeShape::Text)), "Organiser display name, if available.", false),
        field_of("location", TypeShape::Optional(Box::new(TypeShape::Text)), "Location string, if set.", false),
        field_of("fetched_at", TypeShape::I64, "Unix timestamp when this event was fetched.", true),
    ]
}

/// The schema of the `list_events` controller.
pub open spec fn eventkit_list_events_schema() -> SchemaShape {
    schema_of(
        "eventkit",
        "list_events",
        "Read calendar events from macOS EventKit in a UTC timestamp window. Deduplicates on iCalUID so re-fetching the same window returns only new events. Returns NotSupported on non-macOS targets.",
        seq![
            field_of("start_ts", TypeShape::Optional(Box::new(TypeShape::I64)), "Window start as Unix timestamp (seconds, UTC). Defaults to now.", false),
            field_of("end_ts", TypeShape::Optional(Box::new(TypeShape::I64)), "Window end as Unix timestamp (seconds, UTC). Defaults to now+30d.", false),
            field_of("limit", TypeShape::Optional(Box::new(TypeShape::U64)), "Max events to return (1–1000). Defaults to 100.", false),
        ],
        seq![
            field_of("events", TypeShape::Array(Box::new(TypeShape::Object(eventkit_list_events_out_events_fields()))), "Calendar events newly fetched (not previously cached).", true),
            field_of("count", TypeShape::I64, "Number of new events returned.", true),
        ],
    )
}

/// The schema of the `create_reminder` controller.
pub open spec fn eventkit_create_reminder_schema() -> SchemaShape {
    schema_of(
        "eventkit",
        "create_reminder",
        "Write a new reminder to macOS EventKit Reminders via EKEventStore.saveReminder. Returns the new reminder's EKCalendarItem identifier. Returns NotSupported on non-macOS targets.",
        seq![
            field_of("title", TypeShape::Text, "Reminder title. Required.", true),
            field_of("notes", TypeShape::Optional(Box::new(TypeShape::Text)), "Optional free-text notes.", false),
            field_of("due_date", TypeShape::Optional(Box::new(TypeShape::Text)), "Optional RFC 3339 due date. An alarm is added at this time.", false),
            field_of("priority", TypeShape::Optional(Box::new(TypeShape::U64)), "Priority 0–9 (0=none, 1=high, 5=medium, 9=low).", false),
            field_of("list_name", TypeShape::Optional(Box::new(TypeShape::Text)), "Target reminders list name. Falls back to the default list.", false),
        ],
        seq![
            field_of("identifier", TypeShape::Text, "EventKit identifier for the newly created reminder.", true),
        ],
    )
}

/// The schema of the `unknown` controller.
pub open spec fn eventkit_unknown_schema() -> SchemaShape {
    schema_of(
        "eventkit",
        "unknown",
        "Unknown eventkit controller function.",
        seq![],
        seq![
            field_of("error", TypeShape::Text, "Lookup error details.", true),
        ],
    )
}

/// The schema that `schemas` gives for a function name.
pub open spec fn eventkit_schema(function: Seq<char>) -> SchemaShape {
    if function == "list_events"@ {
        eventkit_list_events_schema()
    } else if function == "create_reminder"@ {
        eventkit_create_reminder_schema()
    } else {
        eventkit_unknown_schema()
    }
}

/// The schemas of the eventkit controllers, in registration order.
pub open spec fn eventkit_schemas() -> Seq<SchemaShape> {
    seq![
        eventkit_list_events_schema(),
        eventkit_create_reminder_schema(),
    ]
}

/// The handlers of the eventkit controllers, in registration order.
pub open spec fn eventkit_handlers() -> Seq<EventKitHandler> {
    seq![
        EventKitHandler::ListEvents,
        EventKitHandler::CreateReminder,
    ]
}

/// Schemas of every controller, in registration order.
pub fn all_controller_schemas() -> (r: Vec<ControllerSchema>)
    ensures
        r@.len() == eventkit_schemas().len(),
        forall|i: int| 0 <= i < r@.len() ==> schema_shape(#[trigger] r@[i]) == eventkit_schemas()[i],
{
    let r = vec![list_events_schema(), create_reminder_schema()];
    assert forall|i: int| 0 <= i < r@.len() implies schema_shape(#[trigger] r@[i]) == eventkit_schemas()[i] by {
        assert(0 <= i < 2);
    }
    r
}

/// Every controller with its handler, in registration order.
pub fn all_registered_controllers() -> (r: Vec<RegisteredController<EventKitHandler>>)
    ensures
        r@.len() == eventkit_schemas().len(),
        forall|i: int| 0 <= i < r@.len() ==> schema_shape(#[trigger] r@[i].schema) == eventkit_schemas()[i] && r@[i].handler == eventkit_handlers()[i],
{
    let r = vec![
        RegisteredController { schema: list_events_schema(), handler: EventKitHandler::ListEvents },
        RegisteredController { schema: create_reminder_schema(), handler: EventKitHandler::CreateReminder },
    ];
    assert forall|i: int| 0 <= i < r@.len() implies schema_shape(#[trigger] r@[i].schema) == eventkit_schemas()[i] && r@[i].handler == eventkit_handlers()[i] by {
        assert(0 <= i < 2);
    }
    r
}

fn list_events_schema() -> (s: ControllerSchema)
    ensures
        schema_shape(s) =~~= eventkit_list_events_schema(),
{
    let list_events_out_events_fields = vec![
        FieldSchema { name: "ical_uid", ty: TypeSchema::String, comment: "Stable iCalendar UID — primary dedup key.", required: true },
        FieldSchema { name: "calendar_id", ty: TypeSchema::String, comment: "EventKit calendar identifier.", required: true },
        FieldSchema { name: "calendar_title", ty: TypeSchema::String, comment: "Display name of the source calendar.", required: true },
        FieldSchema { name: "title", ty: TypeSchema::String, comment: "Event title.", required: true },
        FieldSchema { name: "notes", ty: TypeSchema::Optional(Box::new(TypeSchema::String)), comment: "Free-text notes from the event.", required: false },
        FieldSchema { name: "start_date", ty: TypeSchema::String, comment: "RFC 3339 UTC start time.", required: true },
        FieldSchema { name: "end_date", ty: TypeSchema::String, comment: "RFC 3339 UTC end time.", required: true },
        FieldSchema { name: "is_all_day", ty: TypeSchema::Bool, comment: "True when the event spans whole days.", required: true },
        FieldSchema { name: "organizer", ty: TypeSchema::Optional(Box::new(TypeSchema::String)), comment: "Organiser display name, if available.", required: false },
        FieldSchema { name: "location", ty: TypeSchema::Optional(Box::new(TypeSchema::String)), comment: "Location string, if set.", required: false },
        FieldSchema { name: "fetched_at", ty: TypeSchema::I64, comment: "Unix timestamp when this event was fetched.", required: true },
    ];
    assert(fields_shape(list_events_out_events_fields@) =~~= eventkit_list_events_out_events_fields());
    ControllerSchema {
        namespace: "eventkit",
        function: "list_events",
        description: "Read calendar events from macOS EventKit in a UTC timestamp window. Deduplicates on iCalUID so re-fetching the same window returns only new events. Returns NotSupported on non-macOS targets.",
        inputs: vec![
            FieldSchema { name: "start_ts", ty: TypeSchema::Optional(Box::new(TypeSchema::I64)), comment: "Window start as Unix timestamp (seconds, UTC). Defaults to now.", required: false },
            FieldSchema { name: "end_ts", ty: TypeSchema::Optional(Box::new(TypeSchema::I64)), comment: "Window end as Unix timestamp (seconds, UTC). Defaults to now+30d.", required: false },
            FieldSchema { name: "limit", ty: TypeSchema::Optional(Box::new(TypeSchema::U64)), comment: "Max events to return (1–1000). Defaults to 100.", required: false },
        ],
        outputs: vec![
            FieldSchema { name: "events", ty: TypeSchema::Array(Box::new(TypeSchema::Object { fields: list_events_out_events_fields })), comment: "Calendar events newly fetched (not previously cached).", required: true },
            FieldSchema { name: "count", ty: TypeSchema::I64, comment: "Number of new events returned.", required: true },
        ],
    }
}

fn create_reminder_schema() -> (s: ControllerSchema)
    ensures
        schema_shape(s) =~~= eventkit_create_reminder_schema(),
{
    ControllerSchema {
        namespace: "eventkit",
        function: "create_reminder",
        description: "Write a new reminder to macOS EventKit Reminders via EKEventStore.saveReminder. Returns the new reminder's EKCalendarItem identifier. Returns NotSupported on non-macOS targets.",
        inputs: vec![
            FieldSchema { name: "title", ty: TypeSchema::String, comment: "Reminder title. Required.", required: true },
            FieldSchema { name: "notes", ty: TypeSchema::Optional(Box::new(TypeSchema::String)), comment: "Optional free-text notes.", required: false },
            FieldSchema { name: "due_date", ty: TypeSchema::Optional(Box::new(TypeSchema::String)), comment: "Optional RFC 3339 due date. An alarm is added at this time.", required: false },
            FieldSchema { name: "priority", ty: TypeSchema::Optional(Box::new(TypeSchema::U64)), comment: "Priority 0–9 (0=none, 1=high, 5=medium, 9=low).", required: false },
            FieldSchema { name: "list_name", ty: TypeSchema::Optional(Box::new(TypeSchema::String)), comment: "Target reminders list name. Falls back to the default list.", required: false },
        ],
        outputs: vec![
            FieldSchema { name: "identifier", ty: TypeSchema::String, comment: "EventKit identifier for the newly created reminder.", required: true },
        ],
    }
}

fn unknown_schema() -> (s: ControllerSchema)
    ensures
        schema_shape(s) =~~= eventkit_unknown_schema(),
{
    ControllerSchema {
        namespace: "eventkit",
        function: "unknown",
        description: "Unknown eventkit controller function.",
        inputs: vec![],
        outputs: vec![
            FieldSchema { name: "error", ty: TypeSchema::String, comment: "Lookup error details.", required: true },
        ],
    }
}

/// The schema of one controller; an unknown name gives the `unknown`
/// schema.
pub fn schemas(function: &str) -> (s: ControllerSchema)
    ensures
        schema_shape(s) =~~= eventkit_schema(function@),
{
    if str_eq(function, "list_events") {
        list_events_schema()
    } else if str_eq(function, "create_reminder") {
        create_reminder_schema()
    } else {
        unknown_schema()
    }
}

} // verus!
