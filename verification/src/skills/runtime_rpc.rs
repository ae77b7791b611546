//! Controller schemas for the QuickJS skill runtime, and the checks the
//! runtime handlers apply to their parameters.

use vstd::prelude::*;
use crate::controller::{
    ControllerSchema, FieldSchema, RegisteredController, SchemaShape, TypeSchema, TypeShape,
    field_of, field_shape, schema_of, schema_shape,
};
use crate::text::{contains, is_blank, owned, push_str, str_contains, str_eq, trim, trim_str};

verus! {

broadcast use crate::controller::lemma_fields_shape_map;

fn required_string(name: &'static str, comment: &'static str) -> (f: FieldSchema)
    ensures
        field_shape(f) == field_of(name, TypeShape::Text, comment, true),
{
    FieldSchema { name, ty: TypeSchema::String, comment, required: true }
}

fn required_json(name: &'static str, comment: &'static str) -> (f: FieldSchema)
    ensures
        field_shape(f) == field_of(name, TypeShape::Json, comment, true),
{
    FieldSchema { name, ty: TypeSchema::Json, comment, required: true }
}

/// The handlers of the runtime domain.
#[derive(PartialEq, Eq, Structural, Clone, Copy, Debug)]
pub enum RuntimeHandler {
    DiscoverSkills,
    StartSkill,
    StopSkill,
    Rpc,
    IsEnabled,
    Enable,
    Disable,
    SkillDataDir,
    SkillDataRead,
    SkillDataWrite,
}


/// The schema of the `discover_skills` controller.
pub open spec fn runtime_discover_skills_schema() -> SchemaShape {
    schema_of(
        "runtime",
        "discover_skills",
        "Discover available QuickJS skills from the local skills directory.",
        seq![],
        seq![
            field_of("manifests", TypeShape::Json, "Array of skill manifest JSON objects.", true),
        ],
    )
}

/// The schema of the `start_skill` controller.
pub open spec fn runtime_start_skill_schema() -> SchemaShape {
    schema_of(
        "runtime",
        "start_skill",
        "Start a skill by id in the QuickJS runtime.",
        seq![
            field_of("skill_id", TypeShape::Text, "Skill id to start.", true),
        ],
        seq![
            field_of("snapshot", TypeShape::Json, "Skill snapshot.", true),
        ],
    )
}

/// The schema of the `stop_skill` controller.
pub open spec fn runtime_stop_skill_schema() -> SchemaShape {
    schema_of(
        "runtime",
        "stop_skill",
        "Stop a running skill by id.",
        seq![
            field_of("skill_id", TypeShape::Text, "Skill id to stop.", true),
        ],
        seq![
            field_of("result", TypeShape::Json, "Stop result payload.", true),
        ],
    )
}

/// The schema of the `rpc` controller.
pub open spec fn runtime_rpc_schema() -> SchemaShape {
    schema_of(
        "runtime",
        "rpc",
        "Route a JSON-RPC method to a running skill instance.",
        seq![
            field_of("skill_id", TypeShape::Text, "Skill id.", true),
            field_of("method", TypeShape::Text, "RPC method name.", true),
            field_of("params", TypeShape::Json, "RPC params object.", true),
        ],
        seq![
            field_of("result", TypeShape::Json, "RPC result payload.", true),
        ],
    )
}

/// The schema of the `is_skill_enabled` controller.
pub open spec fn runtime_is_skill_enabled_schema() -> SchemaShape {
    schema_of(
        "runtime",
        "is_skill_enabled",
        "Check whether a skill is enabled (user preferences).",
        seq![
            field_of("skill_id", TypeShape::Text, "Skill id.", true),
        ],
        seq![
            field_of("enabled", TypeShape::Bool, "Whether skill is enabled.", true),
        ],
    )
}

/// The schema of the `enable_skill` controller.
pub open spec fn runtime_enable_skill_schema() -> SchemaShape {
    schema_of(
        "runtime",
        "enable_skill",
        "Enable a skill and start it.",
        seq![
            field_of("skill_id", TypeShape::Text, "Skill id.", true),
        ],
        seq![
            field_of("result", TypeShape::Json, "Enable result payload.", true),
        ],
    )
}

/// The schema of the `disable_skill` controller.
pub open spec fn runtime_disable_skill_schema() -> SchemaShape {
    schema_of(
        "runtime",
        "disable_skill",
        "Disable a skill and stop it.",
        seq![
            field_of("skill_id", TypeShape::Text, "Skill id.", true),
        ],
        seq![
            field_of("result", TypeShape::Json, "Disable result payload.", true),
        ],
    )
}

/// The schema of the `skill_data_dir` controller.
pub open spec fn runtime_skill_data_dir_schema() -> SchemaShape {
    schema_of(
        "runtime",
        "skill_data_dir",
        "Return the local data directory for a skill instance.",
        seq![
            field_of("skill_id", TypeShape::Text, "Skill id.", true),
        ],
        seq![
            field_of("path", TypeShape::Text, "Absolute path to the skill data directory.", true),
        ],
    )
}

/// The schema of the `skill_data_read` controller.
pub open spec fn runtime_skill_data_read_schema() -> SchemaShape {
    schema_of(
        "runtime",
        "skill_data_read",
        "Read a file from the skill data directory.",
        seq![
            field_of("skill_id", TypeShape::Text, "Skill id.", true),
            field_of("filename", TypeShape::Text, "File name inside skill data dir.", true),
        ],
        seq![
            field_of("content", TypeShape::Text, "File contents.", true),
        ],
    )
}

/// The schema of the `skill_data_write` controller.
pub open spec fn runtime_skill_data_write_schema() -> SchemaShape {
    schema_of(
        "runtime",
        "skill_data_write",
        "Write a file into the skill data directory.",
        seq![
            field_of("skill_id", TypeShape::Text, "Skill id.", true),
            field_of("filename", TypeShape::Text, "File name inside skill data dir.", true),
            field_of("content", TypeShape::Text, "File contents.", true),
        ],
        seq![
            field_of("result", TypeShape::Json, "Write result payload.", true),
        ],
    )
}

/// The schema of the `unknown` controller.
pub open spec fn runtime_unknown_schema() -> SchemaShape {
    schema_of(
        "runtime",
        "unknown",
        "Unknown runtime controller function.",
        seq![],
        seq![
            field_of("error", TypeShape::Text, "Lookup error details.", true),
        ],
    )
}

/// The schema that `schemas` gives for a function name.
pub open spec fn runtime_schema(function: Seq<char>) -> SchemaShape {
    if function == "discover_skills"@ {
        runtime_discover_skills_schema()
    } else if function == "start_skill"@ {
        runtime_start_skill_schema()
    } else if function == "stop_skill"@ {
        runtime_stop_skill_schema()
    } else if function == "rpc"@ {
        runtime_rpc_schema()
    } else if function == "is_skill_enabled"@ {
        runtime_is_skill_enabled_schema()
    } else if function == "enable_skill"@ {
        runtime_enable_skill_schema()
    } else if function == "disable_skill"@ {
        runtime_disable_skill_schema()
    } else if function == "skill_data_dir"@ {
        runtime_skill_data_dir_schema()
    } else if function == "skill_data_read"@ {
        runtime_skill_data_read_schema()
    } else if function == "skill_data_write"@ {
        runtime_skill_data_write_schema()
    } else {
        runtime_unknown_schema()
    }
}

/// The schemas of the runtime controllers, in registration order.
pub open spec fn runtime_schemas() -> Seq<SchemaShape> {
    seq![
        runtime_discover_skills_schema(),
        runtime_start_skill_schema(),
        runtime_stop_skill_schema(),
        runtime_rpc_schema(),
        runtime_is_skill_enabled_schema(),
        runtime_enable_skill_schema(),
        runtime_disable_skill_schema(),
        runtime_skill_data_dir_schema(),
        runtime_skill_data_read_schema(),
        runtime_skill_data_write_schema(),
    ]
}

/// The handlers of the runtime controllers, in registration order.
pub open spec fn runtime_handlers() -> Seq<RuntimeHandler> {
    seq![
        RuntimeHandler::DiscoverSkills,
        RuntimeHandler::StartSkill,
        RuntimeHandler::StopSkill,
        RuntimeHandler::Rpc,
        RuntimeHandler::IsEnabled,
        RuntimeHandler::Enable,
        RuntimeHandler::Disable,
        RuntimeHandler::SkillDataDir,
        RuntimeHandler::SkillDataRead,
        RuntimeHandler::SkillDataWrite,
    ]
}

/// Schemas of every controller, in registration order.
pub fn all_controller_schemas() -> (r: Vec<ControllerSchema>)
    ensures
        r@.len() == runtime_schemas().len(),
        forall|i: int| 0 <= i < r@.len() ==> schema_shape(#[trigger] r@[i]) == runtime_schemas()[i],
{
    let r = vec![discover_skills_schema(), start_skill_schema(), stop_skill_schema(), rpc_schema(), is_skill_enabled_schema(), enable_skill_schema(), disable_skill_schema(), skill_data_dir_schema(), skill_data_read_schema(), skill_data_write_schema()];
    assert forall|i: int| 0 <= i < r@.len() implies schema_shape(#[trigger] r@[i]) == runtime_schemas()[i] by {
        assert(0 <= i < 10);
    }
    r
}

/// Every controller with its handler, in registration order.
pub fn all_registered_controllers() -> (r: Vec<RegisteredController<RuntimeHandler>>)
    ensures
        r@.len() == runtime_schemas().len(),
        forall|i: int| 0 <= i < r@.len() ==> schema_shape(#[trigger] r@[i].schema) == runtime_schemas()[i] && r@[i].handler == runtime_handlers()[i],
{
    let r = vec![
        RegisteredController { schema: discover_skills_schema(), handler: RuntimeHandler::DiscoverSkills },
        RegisteredController { schema: start_skill_schema(), handler: RuntimeHandler::StartSkill },
        RegisteredController { schema: stop_skill_schema(), handler: RuntimeHandler::StopSkill },
        RegisteredController { schema: rpc_schema(), handler: RuntimeHandler::Rpc },
        RegisteredController { schema: is_skill_enabled_schema(), handler: RuntimeHandler::IsEnabled },
        RegisteredController { schema: enable_skill_schema(), handler: RuntimeHandler::Enable },
        RegisteredController { schema: disable_skill_schema(), handler: RuntimeHandler::Disable },
        RegisteredController { schema: skill_data_dir_schema(), handler: RuntimeHandler::SkillDataDir },
        RegisteredController { schema: skill_data_read_schema(), handler: RuntimeHandler::SkillDataRead },
        RegisteredController { schema: skill_data_write_schema(), handler: RuntimeHandler::SkillDataWrite },
    ];
    assert forall|i: int| 0 <= i < r@.len() implies schema_shape(#[trigger] r@[i].schema) == runtime_schemas()[i] && r@[i].handler == runtime_handlers()[i] by {
        assert(0 <= i < 10);
    }
    r
}

fn discover_skills_schema() -> (s: ControllerSchema)
    ensures
        schema_shape(s) =~~= runtime_discover_skills_schema(),
{
    ControllerSchema {
        namespace: "runtime",
        function: "discover_skills",
        description: "Discover available QuickJS skills from the local skills directory.",
        inputs: vec![],
        outputs: vec![
            FieldSchema { name: "manifests", ty: TypeSchema::Json, comment: "Array of skill manifest JSON objects.", required: true },
        ],
    }
}

fn start_skill_schema() -> (s: ControllerSchema)
    ensures
        schema_shape(s) =~~= runtime_start_skill_schema(),
{
    ControllerSchema {
        namespace: "runtime",
        function: "start_skill",
        description: "Start a skill by id in the QuickJS runtime.",
        inputs: vec![
            required_string("skill_id", "Skill id to start."),
        ],
        outputs: vec![
            required_json("snapshot", "Skill snapshot."),
        ],
    }
}

fn stop_skill_schema() -> (s: ControllerSchema)
    ensures
        schema_shape(s) =~~= runtime_stop_skill_schema(),
{
    ControllerSchema {
        namespace: "runtime",
        function: "stop_skill",
        description: "Stop a running skill by id.",
        inputs: vec![
            required_string("skill_id", "Skill id to stop."),
        ],
        outputs: vec![
            required_json("result", "Stop result payload."),
        ],
    }
}

fn rpc_schema() -> (s: ControllerSchema)
    ensures
        schema_shape(s) =~~= runtime_rpc_schema(),
{
    ControllerSchema {
        namespace: "runtime",
        function: "rpc",
        description: "Route a JSON-RPC method to a running skill instance.",
        inputs: vec![
            required_string("skill_id", "Skill id."),
            required_string("method", "RPC method name."),
            required_json("params", "RPC params object."),
        ],
        outputs: vec![
            required_json("result", "RPC result payload."),
        ],
    }
}

fn is_skill_enabled_schema() -> (s: ControllerSchema)
    ensures
        schema_shape(s) =~~= runtime_is_skill_enabled_schema(),
{
    ControllerSchema {
        namespace: "runtime",
        function: "is_skill_enabled",
        description: "Check whether a skill is enabled (user preferences).",
        inputs: vec![
            required_string("skill_id", "Skill id."),
        ],
        outputs: vec![
            FieldSchema { name: "enabled", ty: TypeSchema::Bool, comment: "Whether skill is enabled.", required: true },
        ],
    }
}

fn enable_skill_schema() -> (s: ControllerSchema)
    ensures
        schema_shape(s) =~~= runtime_enable_skill_schema(),
{
    ControllerSchema {
        namespace: "runtime",
        function: "enable_skill",
        description: "Enable a skill and start it.",
        inputs: vec![
            required_string("skill_id", "Skill id."),
        ],
        outputs: vec![
            required_json("result", "Enable result payload."),
        ],
    }
}

fn disable_skill_schema() -> (s: ControllerSchema)
    ensures
        schema_shape(s) =~~= runtime_disable_skill_schema(),
{
    ControllerSchema {
        namespace: "runtime",
        function: "disable_skill",
        description: "Disable a skill and stop it.",
        inputs: vec![
            required_string("skill_id", "Skill id."),
        ],
        outputs: vec![
            required_json("result", "Disable result payload."),
        ],
    }
}

fn skill_data_dir_schema() -> (s: ControllerSchema)
    ensures
        schema_shape(s) =~~= runtime_skill_data_dir_schema(),
{
    ControllerSchema {
        namespace: "runtime",
        function: "skill_data_dir",
        description: "Return the local data directory for a skill instance.",
        inputs: vec![
            required_string("skill_id", "Skill id."),
        ],
        outputs: vec![
            required_string("path", "Absolute path to the skill data directory."),
        ],
    }
}

fn skill_data_read_schema() -> (s: ControllerSchema)
    ensures
        schema_shape(s) =~~= runtime_skill_data_read_schema(),
{
    ControllerSchema {
        namespace: "runtime",
        function: "skill_data_read",
        description: "Read a file from the skill data directory.",
        inputs: vec![
            required_string("skill_id", "Skill id."),
            required_string("filename", "File name inside skill data dir."),
        ],
        outputs: vec![
            required_string("content", "File contents."),
        ],
    }
}

fn skill_data_write_schema() -> (s: ControllerSchema)
    ensures
        schema_shape(s) =~~= runtime_skill_data_write_schema(),
{
    ControllerSchema {
        namespace: "runtime",
        function: "skill_data_write",
        description: "Write a file into the skill data directory.",
        inputs: vec![
            required_string("skill_id", "Skill id."),
            required_string("filename", "File name inside skill data dir."),
            required_string("content", "File contents."),
        ],
        outputs: vec![
            required_json("result", "Write result payload."),
        ],
    }
}

fn unknown_schema() -> (s: ControllerSchema)
    ensures
        schema_shape(s) =~~= runtime_unknown_schema(),
{
    ControllerSchema {
        namespace: "runtime",
        function: "unknown",
        description: "Unknown runtime controller function.",
        inputs: vec![],
        outputs: vec![
            required_string("error", "Lookup error details."),
        ],
    }
}

/// The schema of one controller; an unknown name gives the `unknown`
/// schema.
pub fn schemas(function: &str) -> (s: ControllerSchema)
    ensures
        schema_shape(s) =~~= runtime_schema(function@),
{
    if str_eq(function, "discover_skills") {
        discover_skills_schema()
    } else if str_eq(function, "start_skill") {
        start_skill_schema()
    } else if str_eq(function, "stop_skill") {
        stop_skill_schema()
    } else if str_eq(function, "rpc") {
        rpc_schema()
    } else if str_eq(function, "is_skill_enabled") {
        is_skill_enabled_schema()
    } else if str_eq(function, "enable_skill") {
        enable_skill_schema()
    } else if str_eq(function, "disable_skill") {
        disable_skill_schema()
    } else if str_eq(function, "skill_data_dir") {
        skill_data_dir_schema()
    } else if str_eq(function, "skill_data_read") {
        skill_data_read_schema()
    } else if str_eq(function, "skill_data_write") {
        skill_data_write_schema()
    } else {
        unknown_schema()
    }
}

/// The checked file name: trimmed, not empty, and free of `..`, `/` and
/// `\\`; the errors are "filename is required" and "invalid filename".
pub fn sanitize_filename(name: &str) -> (r: Result<String, String>)
    ensures
        is_blank(name@) ==> (r matches Err(e) && e@ == "filename is required"@),
        !is_blank(name@) && (contains(trim(name@), ".."@) || contains(trim(name@), "/"@) || contains(
            trim(name@),
            "\\"@,
        )) ==> (r matches Err(e) && e@ == "invalid filename"@),
        !is_blank(name@) && !(contains(trim(name@), ".."@) || contains(trim(name@), "/"@) || contains(
            trim(name@),
            "\\"@,
        )) ==> (r matches Ok(n) && n@ == trim(name@)),
{
    let n = trim_str(name);
    proof {
        lemma_blank_iff_trim_empty(name@);
    }
    if n.as_str().is_empty() {
        return Err(owned("filename is required"));
    }
    if str_contains(n.as_str(), "..") || str_contains(n.as_str(), "/") || str_contains(n.as_str(), "\\") {
        return Err(owned("invalid filename"));
    }
    Ok(n)
}

/// `is_blank` is the emptiness of the trimmed text.
proof fn lemma_blank_iff_trim_empty(s: Seq<char>)
    ensures
        is_blank(s) <==> trim(s).len() == 0,
{
}

/// The error for a missing string parameter.
pub fn missing_param(key: &str) -> (r: String)
    ensures
        r@ == "missing param '"@ + key@ + "'"@,
{
    let mut r = owned("missing param '");
    push_str(&mut r, key);
    push_str(&mut r, "'");
    r
}

} // verus!
