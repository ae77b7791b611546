//! Controller schemas for the health domain.

use vstd::prelude::*;
use crate::controller::{
    ControllerSchema, FieldSchema, RegisteredController, SchemaShape, TypeSchema, TypeShape,
    field_of, schema_of, schema_shape, field_shape, fields_shape,
};
use crate::text::str_eq;

verus! {

broadcast use crate::controller::lemma_fields_shape_map;

/// The handlers of the health domain.
#[derive(PartialEq, Eq, Structural, Clone, Copy, Debug)]
pub enum HealthHandler {
    Snapshot,
}

/// The schema that `schemas` gives for a function name.
pub open spec fn health_schema(function: Seq<char>) -> SchemaShape {
    if function == "snapshot"@ {
        schema_of(
            "health",
            "snapshot",
            "Return process and component health snapshot.",
            seq![],
            seq![field_of("snapshot", TypeShape::Json, "Serialized health snapshot payload.", true)],
        )
    } else {
        schema_of(
            "health",
            "unknown",
            "Unknown health controller function.",
            seq![],
            seq![field_of("error", TypeShape::Text, "Lookup error details.", true)],
        )
    }
}

/// Schemas of every health controller.
pub fn all_controller_schemas() -> (r: Vec<ControllerSchema>)
    ensures
        r@.len() == 1,
        schema_shape(r@[0]) == health_schema("snapshot"@),
{
    vec![schemas("snapshot")]
}

/// Every health controller with its handler.
pub fn all_registered_controllers() -> (r: Vec<RegisteredController<HealthHandler>>)
    ensures
        r@.len() == 1,
        schema_shape(r@[0].schema) == health_schema("snapshot"@),
        r@[0].handler == HealthHandler::Snapshot,
{
    vec![RegisteredController { schema: schemas("snapshot"), handler: HealthHandler::Snapshot }]
}

/// The schema of one health controller; an unknown name gives the
/// `unknown` schema.
pub fn schemas(function: &str) -> (s: ControllerSchema)
    ensures
        schema_shape(s) =~~= health_schema(function@),
{
    if str_eq(function, "snapshot") {
        ControllerSchema {
            namespace: "health",
            function: "snapshot",
            description: "Return process and component health snapshot.",
            inputs: vec![],
            outputs: vec![FieldSchema {
                name: "snapshot",
                ty: TypeSchema::Json,
                comment: "Serialized health snapshot payload.",
                required: true,
            }],
        }
    } else {
        ControllerSchema {
            namespace: "health",
            function: "unknown",
            description: "Unknown health controller function.",
            inputs: vec![],
            outputs: vec![FieldSchema {
                name: "error",
                ty: TypeSchema::String,
                comment: "Lookup error details.",
                required: true,
            }],
        }
    }
}

} // verus!
