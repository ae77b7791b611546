//! Controller schemas for the subconscious loop.

use vstd::prelude::*;
use crate::controller::{
    ControllerSchema, FieldSchema, RegisteredController, SchemaShape, TypeSchema, TypeShape,
    field_of, schema_of, schema_shape,
};
use crate::text::str_eq;

verus! {

broadcast use crate::controller::lemma_fields_shape_map;

/// The handlers of the subconscious domain.
#[derive(PartialEq, Eq, Structural, Clone, Copy, Debug)]
pub enum SubconsciousHandler {
    Status,
    Trigger,
}


/// The schema of the `status` controller.
pub open spec fn subconscious_status_schema() -> SchemaShape {
    schema_of(
        "subconscious",
        "status",
        "Get the current subconscious loop status.",
        seq![],
        seq![
            field_of("result", TypeShape::Json, "Loop status including last tick, decision counts.", true),
        ],
    )
}

/// The schema of the `trigger` controller.
pub open spec fn subconscious_trigger_schema() -> SchemaShape {
    schema_of(
        "subconscious",
        "trigger",
        "Manually trigger a subconscious tick.",
        seq![],
        seq![
            field_of("result", TypeShape::Json, "Tick result with decision, reason, and actions.", true),
        ],
    )
}

/// The schema of the `unknown` controller.
pub open spec fn subconscious_unknown_schema() -> SchemaShape {
    schema_of(
        "subconscious",
        "unknown",
        "Unknown subconscious controller function.",
        seq![
            field_of("function", TypeShape::Text, "Unknown function requested.", true),
        ],
        seq![
            field_of("error", TypeShape::Text, "Error details.", true),
        ],
    )
}

/// The schema that `schemas` gives for a function name.
pub open spec fn subconscious_schema(function: Seq<char>) -> SchemaShape {
    if function == "status"@ {
        subconscious_status_schema()
    } else if function == "trigger"@ {
        subconscious_trigger_schema()
    } else {
        subconscious_unknown_schema()
    }
}

/// The schemas of the subconscious controllers, in registration order.
pub open spec fn subconscious_schemas() -> Seq<SchemaShape> {
    seq![
        subconscious_status_schema(),
        subconscious_trigger_schema(),
    ]
}

/// The handlers of the subconscious controllers, in registration order.
pub open spec fn subconscious_handlers() -> Seq<SubconsciousHandler> {
    seq![
        SubconsciousHandler::Status,
        SubconsciousHandler::Trigger,
    ]
}

/// Schemas of every controller, in registration order.
pub fn all_controller_schemas() -> (r: Vec<ControllerSchema>)
    ensures
        r@.len() == subconscious_schemas().len(),
        forall|i: int| 0 <= i < r@.len() ==> schema_shape(#[trigger] r@[i]) == subconscious_schemas()[i],
{
    let r = vec![status_schema(), trigger_schema()];
    assert forall|i: int| 0 <= i < r@.len() implies schema_shape(#[trigger] r@[i]) == subconscious_schemas()[i] by {
        assert(0 <= i < 2);
    }
    r
}

/// Every controller with its handler, in registration order.
pub fn all_registered_controllers() -> (r: Vec<RegisteredController<SubconsciousHandler>>)
    ensures
        r@.len() == subconscious_schemas().len(),
        forall|i: int| 0 <= i < r@.len() ==> schema_shape(#[trigger] r@[i].schema) == subconscious_schemas()[i] && r@[i].handler == subconscious_handlers()[i],
{
    let r = vec![
        RegisteredController { schema: status_schema(), handler: SubconsciousHandler::Status },
        RegisteredController { schema: trigger_schema(), handler: SubconsciousHandler::Trigger },
    ];
    assert forall|i: int| 0 <= i < r@.len() implies schema_shape(#[trigger] r@[i].schema) == subconscious_schemas()[i] && r@[i].handler == subconscious_handlers()[i] by {
        assert(0 <= i < 2);
    }
    r
}

fn status_schema() -> (s: ControllerSchema)
    ensures
        schema_shape(s) =~~= subconscious_status_schema(),
{
    ControllerSchema {
        namespace: "subconscious",
        function: "status",
        description: "Get the current subconscious loop status.",
        inputs: vec![],
        outputs: vec![
            FieldSchema { name: "result", ty: TypeSchema::Json, comment: "Loop status including last tick, decision counts.", required: true },
        ],
    }
}

fn trigger_schema() -> (s: ControllerSchema)
    ensures
        schema_shape(s) =~~= subconscious_trigger_schema(),
{
    ControllerSchema {
        namespace: "subconscious",
        function: "trigger",
        description: "Manually trigger a subconscious tick.",
        inputs: vec![],
        outputs: vec![
            FieldSchema { name: "result", ty: TypeSchema::Json, comment: "Tick result with decision, reason, and actions.", required: true },
        ],
    }
}

fn unknown_schema() -> (s: ControllerSchema)
    ensures
        schema_shape(s) =~~= subconscious_unknown_schema(),
{
    ControllerSchema {
        namespace: "subconscious",
        function: "unknown",
        description: "Unknown subconscious controller function.",
        inputs: vec![
            FieldSchema { name: "function", ty: TypeSchema::String, comment: "Unknown function requested.", required: true },
        ],
        outputs: vec![
            FieldSchema { name: "error", ty: TypeSchema::String, comment: "Error details.", required: true },
        ],
    }
}

/// The schema of one controller; an unknown name gives the `unknown`
/// schema.
pub fn schemas(function: &str) -> (s: ControllerSchema)
    ensures
        schema_shape(s) =~~= subconscious_schema(function@),
{
    if str_eq(function, "status") {
        status_schema()
    } else if str_eq(function, "trigger") {
        trigger_schema()
    } else {
        unknown_schema()
    }
}

} // verus!
