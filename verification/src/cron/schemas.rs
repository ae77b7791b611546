//! Controller schemas for the cron domain, and the checks that the cron
//! handlers apply to their raw parameters.

use vstd::prelude::*;
use crate::controller::{
    ControllerSchema, FieldSchema, FieldShape, RegisteredController, SchemaShape, TypeSchema,
    TypeShape, field_of, field_shape, fields_shape, names_shape, schema_of, schema_shape,
};
use crate::text::{owned, push_str, str_eq};

verus! {

broadcast use crate::controller::lemma_fields_shape_map;

/// The handlers of the cron domain.
#[derive(PartialEq, Eq, Structural, Clone, Copy, Debug)]
pub enum CronHandler {
    List,
    Update,
    Remove,
    Run,
    Runs,
}

/// The `job_id` input, with its comment.
pub open spec fn job_id_field(comment: Seq<char>) -> FieldShape {
    FieldShape { name: "job_id"@, ty: TypeShape::Text, comment, required: true }
}

/// The schema of the `list` controller.
pub open spec fn cron_list_schema() -> SchemaShape {
    schema_of(
        "cron",
        "list",
        "List all configured cron jobs ordered by next run.",
        seq![],
        seq![
            field_of(
                "jobs",
                TypeShape::Array(Box::new(TypeShape::Ref("CronJob"@))),
                "Cron jobs currently stored in the workspace.",
                true,
            ),
        ],
    )
}

/// The schema of the `update` controller.
pub open spec fn cron_update_schema() -> SchemaShape {
    schema_of(
        "cron",
        "update",
        "Apply a partial patch to an existing cron job.",
        seq![
            job_id_field("Identifier of the cron job to update."@),
            field_of(
                "patch",
                TypeShape::Ref("CronJobPatch"@),
                "Partial update payload with the fields to mutate.",
                true,
            ),
        ],
        seq![
            field_of(
                "job",
                TypeShape::Ref("CronJob"@),
                "Updated cron job after applying the patch.",
                true,
            ),
        ],
    )
}

/// The fields of the `remove` result.
pub open spec fn cron_remove_result_fields() -> Seq<FieldShape> {
    seq![
        field_of("job_id", TypeShape::Text, "Identifier that was requested for removal.", true),
        field_of("removed", TypeShape::Bool, "True when the job was removed.", true),
    ]
}

/// The schema of the `remove` controller.
pub open spec fn cron_remove_schema() -> SchemaShape {
    schema_of(
        "cron",
        "remove",
        "Remove a cron job by id.",
        seq![job_id_field("Identifier of the cron job to remove."@)],
        seq![
            field_of(
                "result",
                TypeShape::Object(cron_remove_result_fields()),
                "Removal result payload.",
                true,
            ),
        ],
    )
}

/// The fields of the `run` result.
pub open spec fn cron_run_result_fields() -> Seq<FieldShape> {
    seq![
        field_of("job_id", TypeShape::Text, "Executed cron job identifier.", true),
        field_of("status", TypeShape::Enum(seq!["ok"@, "error"@]), "Execution status.", true),
        field_of("duration_ms", TypeShape::I64, "Execution duration in milliseconds.", true),
        field_of("output", TypeShape::Text, "Captured command output (possibly truncated).", true),
    ]
}

/// The schema of the `run` controller.
pub open spec fn cron_run_schema() -> SchemaShape {
    schema_of(
        "cron",
        "run",
        "Run a cron job immediately and record run metadata.",
        seq![job_id_field("Identifier of the cron job to execute immediately."@)],
        seq![
            field_of(
                "result",
                TypeShape::Object(cron_run_result_fields()),
                "Immediate execution result payload.",
                true,
            ),
        ],
    )
}

/// The schema of the `runs` controller.
pub open spec fn cron_runs_schema() -> SchemaShape {
    schema_of(
        "cron",
        "runs",
        "Read historical run records for one cron job.",
        seq![
            job_id_field("Identifier of the cron job whose history to read."@),
            field_of(
                "limit",
                TypeShape::Optional(Box::new(TypeShape::U64)),
                "Maximum number of records to return; defaults to 20.",
                false,
            ),
        ],
        seq![
            field_of(
                "runs",
                TypeShape::Array(Box::new(TypeShape::Ref("CronRun"@))),
                "Ordered cron run history entries.",
                true,
            ),
        ],
    )
}

/// The schema of the `unknown` controller.
pub open spec fn cron_unknown_schema() -> SchemaShape {
    schema_of(
        "cron",
        "unknown",
        "Unknown cron controller function.",
        seq![
            field_of(
                "function",
                TypeShape::Text,
                "Unknown function requested for schema lookup.",
                true,
            ),
        ],
        seq![field_of("error", TypeShape::Text, "Lookup error details.", true)],
    )
}

/// The schema that `schemas` gives for a function name.
pub open spec fn cron_schema(function: Seq<char>) -> SchemaShape {
    if function == "list"@ {
        cron_list_schema()
    } else if function == "update"@ {
        cron_update_schema()
    } else if function == "remove"@ {
        cron_remove_schema()
    } else if function == "run"@ {
        cron_run_schema()
    } else if function == "runs"@ {
        cron_runs_schema()
    } else {
        cron_unknown_schema()
    }
}

/// The schemas of the cron controllers, in registration order.
pub open spec fn cron_schemas() -> Seq<SchemaShape> {
    seq![
        cron_list_schema(),
        cron_update_schema(),
        cron_remove_schema(),
        cron_run_schema(),
        cron_runs_schema(),
    ]
}

/// The handlers of the cron controllers, in registration order.
pub open spec fn cron_handlers() -> Seq<CronHandler> {
    seq![CronHandler::List, CronHandler::Update, CronHandler::Remove, CronHandler::Run, CronHandler::Runs]
}

fn job_id_input(comment: &'static str) -> (f: FieldSchema)
    ensures
        field_shape(f) == job_id_field(comment@),
{
    FieldSchema { name: "job_id", ty: TypeSchema::String, comment, required: true }
}

/// Schemas of every cron controller.
pub fn all_controller_schemas() -> (r: Vec<ControllerSchema>)
    ensures
        r@.len() == cron_schemas().len(),
        forall|i: int|
            0 <= i < r@.len() ==> schema_shape(#[trigger] r@[i]) == cron_schemas()[i],
{
    let r = vec![list_schema(), update_schema(), remove_schema(), run_schema(), runs_schema()];
    assert forall|i: int| 0 <= i < r@.len() implies schema_shape(#[trigger] r@[i]) == cron_schemas()[i] by {
        assert(0 <= i < 5);
    }
    r
}

/// Every cron controller with its handler.
pub fn all_registered_controllers() -> (r: Vec<RegisteredController<CronHandler>>)
    ensures
        r@.len() == cron_schemas().len(),
        forall|i: int|
            0 <= i < r@.len() ==> schema_shape(#[trigger] r@[i].schema) == cron_schemas()[i] && r@[i].handler == cron_handlers()[i],
{
    let r = vec![
        RegisteredController { schema: list_schema(), handler: CronHandler::List },
        RegisteredController { schema: update_schema(), handler: CronHandler::Update },
        RegisteredController { schema: remove_schema(), handler: CronHandler::Remove },
        RegisteredController { schema: run_schema(), handler: CronHandler::Run },
        RegisteredController { schema: runs_schema(), handler: CronHandler::Runs },
    ];
    assert forall|i: int| 0 <= i < r@.len() implies schema_shape(#[trigger] r@[i].schema)
        == cron_schemas()[i] && r@[i].handler == cron_handlers()[i] by {
        assert(0 <= i < 5);
    }
    r
}

fn list_schema() -> (s: ControllerSchema)
    ensures
        schema_shape(s) =~~= cron_list_schema(),
{
    ControllerSchema {
        namespace: "cron",
        function: "list",
        description: "List all configured cron jobs ordered by next run.",
        inputs: vec![],
        outputs: vec![FieldSchema {
            name: "jobs",
            ty: TypeSchema::Array(Box::new(TypeSchema::Ref("CronJob"))),
            comment: "Cron jobs currently stored in the workspace.",
            required: true,
        }],
    }
}

fn update_schema() -> (s: ControllerSchema)
    ensures
        schema_shape(s) =~~= cron_update_schema(),
{
    ControllerSchema {
        namespace: "cron",
        function: "update",
        description: "Apply a partial patch to an existing cron job.",
        inputs: vec![
            job_id_input("Identifier of the cron job to update."),
            FieldSchema {
                name: "patch",
                ty: TypeSchema::Ref("CronJobPatch"),
                comment: "Partial update payload with the fields to mutate.",
                required: true,
            },
        ],
        outputs: vec![FieldSchema {
            name: "job",
            ty: TypeSchema::Ref("CronJob"),
            comment: "Updated cron job after applying the patch.",
            required: true,
        }],
    }
}

fn remove_schema() -> (s: ControllerSchema)
    ensures
        schema_shape(s) =~~= cron_remove_schema(),
{
    let result_fields = vec![
            FieldSchema {
                name: "job_id",
                ty: TypeSchema::String,
                comment: "Identifier that was requested for removal.",
                required: true,
            },
            FieldSchema {
                name: "removed",
                ty: TypeSchema::Bool,
                comment: "True when the job was removed.",
                required: true,
            },
    ];
    assert(fields_shape(result_fields@) =~~= cron_remove_result_fields());
    ControllerSchema {
        namespace: "cron",
        function: "remove",
        description: "Remove a cron job by id.",
        inputs: vec![job_id_input("Identifier of the cron job to remove.")],
        outputs: vec![FieldSchema {
            name: "result",
            ty: TypeSchema::Object { fields: result_fields },
            comment: "Removal result payload.",
            required: true,
        }],
    }
}

fn run_schema() -> (s: ControllerSchema)
    ensures
        schema_shape(s) =~~= cron_run_schema(),
{
    let status_variants: Vec<&'static str> = vec!["ok", "error"];
    assert(names_shape(status_variants@) =~= seq!["ok"@, "error"@]);
    let result_fields = vec![
            FieldSchema {
                name: "job_id",
                ty: TypeSchema::String,
                comment: "Executed cron job identifier.",
                required: true,
            },
            FieldSchema {
                name: "status",
                ty: TypeSchema::Enum { variants: status_variants },
                comment: "Execution status.",
                required: true,
            },
            FieldSchema {
                name: "duration_ms",
                ty: TypeSchema::I64,
                comment: "Execution duration in milliseconds.",
                required: true,
            },
            FieldSchema {
                name: "output",
                ty: TypeSchema::String,
                comment: "Captured command output (possibly truncated).",
                required: true,
            },
    ];
    assert(fields_shape(result_fields@) =~~= cron_run_result_fields());
    ControllerSchema {
        namespace: "cron",
        function: "run",
        description: "Run a cron job immediately and record run metadata.",
        inputs: vec![job_id_input("Identifier of the cron job to execute immediately.")],
        outputs: vec![FieldSchema {
            name: "result",
            ty: TypeSchema::Object { fields: result_fields },
            comment: "Immediate execution result payload.",
            required: true,
        }],
    }
}

fn runs_schema() -> (s: ControllerSchema)
    ensures
        schema_shape(s) =~~= cron_runs_schema(),
{
    ControllerSchema {
        namespace: "cron",
        function: "runs",
        description: "Read historical run records for one cron job.",
        inputs: vec![
            job_id_input("Identifier of the cron job whose history to read."),
            FieldSchema {
                name: "limit",
                ty: TypeSchema::Optional(Box::new(TypeSchema::U64)),
                comment: "Maximum number of records to return; defaults to 20.",
                required: false,
            },
        ],
        outputs: vec![FieldSchema {
            name: "runs",
            ty: TypeSchema::Array(Box::new(TypeSchema::Ref("CronRun"))),
            comment: "Ordered cron run history entries.",
            required: true,
        }],
    }
}

fn unknown_schema() -> (s: ControllerSchema)
    ensures
        schema_shape(s) =~~= cron_unknown_schema(),
{
    ControllerSchema {
        namespace: "cron",
        function: "unknown",
        description: "Unknown cron controller function.",
        inputs: vec![FieldSchema {
            name: "function",
            ty: TypeSchema::String,
            comment: "Unknown function requested for schema lookup.",
            required: true,
        }],
        outputs: vec![FieldSchema {
            name: "error",
            ty: TypeSchema::String,
            comment: "Lookup error details.",
            required: true,
        }],
    }
}

/// The schema of one cron controller; an unknown name gives the `unknown`
/// schema.
pub fn schemas(function: &str) -> (s: ControllerSchema)
    ensures
        schema_shape(s) =~~= cron_schema(function@),
{
    if str_eq(function, "list") {
        list_schema()
    } else if str_eq(function, "update") {
        update_schema()
    } else if str_eq(function, "remove") {
        remove_schema()
    } else if str_eq(function, "run") {
        run_schema()
    } else if str_eq(function, "runs") {
        runs_schema()
    } else {
        unknown_schema()
    }
}

// ── Parameter checks ────────────────────────────────────────────────────

/// The kind of a JSON parameter value, with the unsigned integer a number
/// holds when it holds one.
#[derive(Debug, Clone, Copy, PartialEq, Eq, Structural)]
pub enum ParamValue {
    Null,
    Bool,
    Number(Option<u64>),
    Text,
    Array,
    Object,
}

/// The name of a JSON value's kind.
pub open spec fn kind_name(v: ParamValue) -> Seq<char> {
    match v {
        ParamValue::Null => "null"@,
        ParamValue::Bool => "bool"@,
        ParamValue::Number(_) => "number"@,
        ParamValue::Text => "string"@,
        ParamValue::Array => "array"@,
        ParamValue::Object => "object"@,
    }
}

/// The name of a JSON value's kind, as the error messages use it.
pub fn json_kind_name(v: ParamValue) -> (s: &'static str)
    ensures
        s@ == kind_name(v),
{
    match v {
        ParamValue::Null => "null",
        ParamValue::Bool => "bool",
        ParamValue::Number(_) => "number",
        ParamValue::Text => "string",
        ParamValue::Array => "array",
        ParamValue::Object => "object",
    }
}

/// Read an optional unsigned parameter: absent or null is `None`; a number
/// must be an unsigned integer; anything else is an error naming its kind.
pub fn read_optional_u64(key: &str, value: Option<ParamValue>) -> (r: Result<Option<u64>, String>)
    ensures
        match value {
            None => r == Ok::<Option<u64>, String>(None),
            Some(ParamValue::Null) => r == Ok::<Option<u64>, String>(None),
            Some(ParamValue::Number(Some(n))) => r == Ok::<Option<u64>, String>(Some(n)),
            Some(ParamValue::Number(None)) => r matches Err(e) && e@ == "invalid '"@ + key@
                + "': expected unsigned integer"@,
            Some(other) => r matches Err(e) && e@ == "invalid '"@ + key@
                + "': expected unsigned integer, got "@ + kind_name(other),
        },
{
    match value {
        None => Ok(None),
        Some(ParamValue::Null) => Ok(None),
        Some(ParamValue::Number(Some(n))) => Ok(Some(n)),
        Some(ParamValue::Number(None)) => {
            let mut e = owned("invalid '");
            push_str(&mut e, key);
            push_str(&mut e, "': expected unsigned integer");
            Err(e)
        },
        Some(other) => {
            let mut e = owned("invalid '");
            push_str(&mut e, key);
            push_str(&mut e, "': expected unsigned integer, got ");
            push_str(&mut e, json_kind_name(other));
            Err(e)
        },
    }
}

/// The error for a missing required parameter.
pub fn missing_required(key: &str) -> (r: String)
    ensures
        r@ == "missing required param '"@ + key@ + "'"@,
{
    let mut r = owned("missing required param '");
    push_str(&mut r, key);
    push_str(&mut r, "'");
    r
}

} // verus!
