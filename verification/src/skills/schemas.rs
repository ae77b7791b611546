//! Controller schemas for the skill socket bridge and the skill registry.

use vstd::prelude::*;
use crate::controller::{
    ControllerSchema, FieldSchema, FieldShape, RegisteredController, SchemaShape, TypeSchema,
    TypeShape, field_of, schema_of, schema_shape,
};
use crate::text::str_eq;

verus! {

broadcast use crate::controller::lemma_fields_shape_map;

/// The error every socket controller answers with in this build.
pub const SOCKET_UNAVAILABLE_MSG: &'static str =
    "native skill runtime and socket manager are not available in this build";

/// The handlers of the socket and registry controllers.
#[derive(PartialEq, Eq, Structural, Clone, Copy, Debug)]
pub enum SkillsHandler {
    SocketUnavailable,
    RegistryFetch,
    Search,
    Install,
    Uninstall,
    ListInstalled,
    ListAvailable,
}

// ── Socket bridge ───────────────────────────────────────────────────────

/// The socket functions, all served by the same bridge schema.
pub open spec fn is_socket_function(function: Seq<char>) -> bool {
    ||| function == "connect"@
    ||| function == "disconnect"@
    ||| function == "state"@
    ||| function == "emit"@
}

/// The schema that `socket_schema` gives for a function name.
pub open spec fn socket_schema_of(function: Seq<char>) -> SchemaShape {
    if is_socket_function(function) {
        SchemaShape {
            namespace: "socket"@,
            function,
            description: "Skill runtime socket manager bridge."@,
            inputs: seq![
                field_of(
                    "payload",
                    TypeShape::Optional(Box::new(TypeShape::Json)),
                    "Socket request payload.",
                    false,
                ),
            ],
            outputs: seq![field_of("result", TypeShape::Json, "Socket response payload.", true)],
        }
    } else {
        schema_of(
            "socket",
            "unknown",
            "Unknown socket controller function.",
            seq![],
            seq![field_of("error", TypeShape::Text, "Lookup error details.", true)],
        )
    }
}

fn socket_schema(function: &str) -> (s: ControllerSchema)
    ensures
        schema_shape(s) =~~= socket_schema_of(function@),
{
    let connect = str_eq(function, "connect");
    let disconnect = str_eq(function, "disconnect");
    let state = str_eq(function, "state");
    let emit = str_eq(function, "emit");
    if connect || disconnect || state || emit {
        let name: &'static str = if connect {
            "connect"
        } else if disconnect {
            "disconnect"
        } else if state {
            "state"
        } else {
            "emit"
        };
        ControllerSchema {
            namespace: "socket",
            function: name,
            description: "Skill runtime socket manager bridge.",
            inputs: vec![FieldSchema {
                name: "payload",
                ty: TypeSchema::Optional(Box::new(TypeSchema::Json)),
                comment: "Socket request payload.",
                required: false,
            }],
            outputs: vec![FieldSchema {
                name: "result",
                ty: TypeSchema::Json,
                comment: "Socket response payload.",
                required: true,
            }],
        }
    } else {
        ControllerSchema {
            namespace: "socket",
            function: "unknown",
            description: "Unknown socket controller function.",
            inputs: vec![],
            outputs: vec![FieldSchema {
                name: "error",
                ty: TypeSchema::String,
                comment: "Lookup error details.",
                required: true,
            }],
        }
    }
}

// ── Skill registry ──────────────────────────────────────────────────────



/// The schema of the `registry_fetch` controller.
pub open spec fn registry_registry_fetch_schema() -> SchemaShape {
    schema_of(
        "skills",
        "registry_fetch",
        "Fetch the remote skill registry (cached with 1h TTL).",
        seq![
            field_of("force", TypeShape::Optional(Box::new(TypeShape::Bool)), "Force a fresh fetch, bypassing cache.", false),
        ],
        seq![
            field_of("result", TypeShape::Json, "The full registry JSON.", true),
        ],
    )
}

/// The schema of the `search` controller.
pub open spec fn registry_search_schema() -> SchemaShape {
    schema_of(
        "skills",
        "search",
        "Search available skills by name, description, or ID.",
        seq![
            field_of("query", TypeShape::Text, "Search query string.", true),
            field_of("category", TypeShape::Optional(Box::new(TypeShape::Text)), "Filter by category: 'core' or 'third_party'.", false),
        ],
        seq![
            field_of("result", TypeShape::Json, "Array of matching skill entries.", true),
        ],
    )
}

/// The schema of the `install` controller.
pub open spec fn registry_install_schema() -> SchemaShape {
    schema_of(
        "skills",
        "install",
        "Download and install a skill from the registry.",
        seq![
            field_of("skill_id", TypeShape::Text, "The skill ID to install.", true),
        ],
        seq![
            field_of("result", TypeShape::Json, "Installation result.", true),
        ],
    )
}

/// The schema of the `uninstall` controller.
pub open spec fn registry_uninstall_schema() -> SchemaShape {
    schema_of(
        "skills",
        "uninstall",
        "Remove an installed skill from the workspace.",
        seq![
            field_of("skill_id", TypeShape::Text, "The skill ID to uninstall.", true),
        ],
        seq![
            field_of("result", TypeShape::Json, "Uninstallation result.", true),
        ],
    )
}

/// The schema of the `list_installed` controller.
pub open spec fn registry_list_installed_schema() -> SchemaShape {
    schema_of(
        "skills",
        "list_installed",
        "List all locally installed skills.",
        seq![],
        seq![
            field_of("result", TypeShape::Json, "Array of installed skill info.", true),
        ],
    )
}

/// The schema of the `list_available` controller.
pub open spec fn registry_list_available_schema() -> SchemaShape {
    schema_of(
        "skills",
        "list_available",
        "List all available skills with installed status.",
        seq![],
        seq![
            field_of("result", TypeShape::Json, "Array of available skill entries with installed flags.", true),
        ],
    )
}

/// The schema of the `unknown` controller.
pub open spec fn registry_unknown_schema() -> SchemaShape {
    schema_of(
        "skills",
        "unknown",
        "Unknown skills controller function.",
        seq![],
        seq![
            field_of("error", TypeShape::Text, "Lookup error details.", true),
        ],
    )
}

/// The schema that `schemas` gives for a function name.
pub open spec fn registry_schema(function: Seq<char>) -> SchemaShape {
    if function == "registry_fetch"@ {
        registry_registry_fetch_schema()
    } else if function == "search"@ {
        registry_search_schema()
    } else if function == "install"@ {
        registry_install_schema()
    } else if function == "uninstall"@ {
        registry_uninstall_schema()
    } else if function == "list_installed"@ {
        registry_list_installed_schema()
    } else if function == "list_available"@ {
        registry_list_available_schema()
    } else {
        registry_unknown_schema()
    }
}

/// The schemas of the skills controllers, in registration order.
pub open spec fn registry_schemas() -> Seq<SchemaShape> {
    seq![
        registry_registry_fetch_schema(),
        registry_search_schema(),
        registry_install_schema(),
        registry_uninstall_schema(),
        registry_list_installed_schema(),
        registry_list_available_schema(),
    ]
}


fn registry_fetch_schema() -> (s: ControllerSchema)
    ensures
        schema_shape(s) =~~= registry_registry_fetch_schema(),
{
    ControllerSchema {
        namespace: "skills",
        function: "registry_fetch",
        description: "Fetch the remote skill registry (cached with 1h TTL).",
        inputs: vec![
            FieldSchema { name: "force", ty: TypeSchema::Optional(Box::new(TypeSchema::Bool)), comment: "Force a fresh fetch, bypassing cache.", required: false },
        ],
        outputs: vec![
            FieldSchema { name: "result", ty: TypeSchema::Json, comment: "The full registry JSON.", required: true },
        ],
    }
}

fn search_schema() -> (s: ControllerSchema)
    ensures
        schema_shape(s) =~~= registry_search_schema(),
{
    ControllerSchema {
        namespace: "skills",
        function: "search",
        description: "Search available skills by name, description, or ID.",
        inputs: vec![
            FieldSchema { name: "query", ty: TypeSchema::String, comment: "Search query string.", required: true },
            FieldSchema { name: "category", ty: TypeSchema::Optional(Box::new(TypeSchema::String)), comment: "Filter by category: 'core' or 'third_party'.", required: false },
        ],
        outputs: vec![
            FieldSchema { name: "result", ty: TypeSchema::Json, comment: "Array of matching skill entries.", required: true },
        ],
    }
}

fn install_schema() -> (s: ControllerSchema)
    ensures
        schema_shape(s) =~~= registry_install_schema(),
{
    ControllerSchema {
        namespace: "skills",
        function: "install",
        description: "Download and install a skill from the registry.",
        inputs: vec![
            FieldSchema { name: "skill_id", ty: TypeSchema::String, comment: "The skill ID to install.", required: true },
        ],
        outputs: vec![
            FieldSchema { name: "result", ty: TypeSchema::Json, comment: "Installation result.", required: true },
        ],
    }
}

fn uninstall_schema() -> (s: ControllerSchema)
    ensures
        schema_shape(s) =~~= registry_uninstall_schema(),
{
    ControllerSchema {
        namespace: "skills",
        function: "uninstall",
        description: "Remove an installed skill from the workspace.",
        inputs: vec![
            FieldSchema { name: "skill_id", ty: TypeSchema::String, comment: "The skill ID to uninstall.", required: true },
        ],
        outputs: vec![
            FieldSchema { name: "result", ty: TypeSchema::Json, comment: "Uninstallation result.", required: true },
        ],
    }
}

fn list_installed_schema() -> (s: ControllerSchema)
    ensures
        schema_shape(s) =~~= registry_list_installed_schema(),
{
    ControllerSchema {
        namespace: "skills",
        function: "list_installed",
        description: "List all locally installed skills.",
        inputs: vec![],
        outputs: vec![
            FieldSchema { name: "result", ty: TypeSchema::Json, comment: "Array of installed skill info.", required: true },
        ],
    }
}

fn list_available_schema() -> (s: ControllerSchema)
    ensures
        schema_shape(s) =~~= registry_list_available_schema(),
{
    ControllerSchema {
        namespace: "skills",
        function: "list_available",
        description: "List all available skills with installed status.",
        inputs: vec![],
        outputs: vec![
            FieldSchema { name: "result", ty: TypeSchema::Json, comment: "Array of available skill entries with installed flags.", required: true },
        ],
    }
}

fn skills_unknown_schema() -> (s: ControllerSchema)
    ensures
        schema_shape(s) =~~= registry_unknown_schema(),
{
    ControllerSchema {
        namespace: "skills",
        function: "unknown",
        description: "Unknown skills controller function.",
        inputs: vec![],
        outputs: vec![
            FieldSchema { name: "error", ty: TypeSchema::String, comment: "Lookup error details.", required: true },
        ],
    }
}

/// The schema of one registry controller; an unknown name gives the
/// `unknown` schema.
fn skills_schema(function: &str) -> (s: ControllerSchema)
    ensures
        schema_shape(s) =~~= registry_schema(function@),
{
    if str_eq(function, "registry_fetch") {
        registry_fetch_schema()
    } else if str_eq(function, "search") {
        search_schema()
    } else if str_eq(function, "install") {
        install_schema()
    } else if str_eq(function, "uninstall") {
        uninstall_schema()
    } else if str_eq(function, "list_installed") {
        list_installed_schema()
    } else if str_eq(function, "list_available") {
        list_available_schema()
    } else {
        skills_unknown_schema()
    }
}


// ── Registration ────────────────────────────────────────────────────────

/// The socket schemas followed by the registry schemas, in registration
/// order.
pub open spec fn skills_controller_schemas() -> Seq<SchemaShape> {
    seq![
        socket_schema_of("connect"@),
        socket_schema_of("disconnect"@),
        socket_schema_of("state"@),
        socket_schema_of("emit"@),
    ] + registry_schemas()
}

/// The handlers, in registration order: the four socket controllers share
/// one handler.
pub open spec fn skills_handlers() -> Seq<SkillsHandler> {
    seq![
        SkillsHandler::SocketUnavailable,
        SkillsHandler::SocketUnavailable,
        SkillsHandler::SocketUnavailable,
        SkillsHandler::SocketUnavailable,
        SkillsHandler::RegistryFetch,
        SkillsHandler::Search,
        SkillsHandler::Install,
        SkillsHandler::Uninstall,
        SkillsHandler::ListInstalled,
        SkillsHandler::ListAvailable,
    ]
}

/// The registry function names are pairwise distinct.
proof fn lemma_registry_names_distinct()
    ensures
        "registry_fetch"@ != "search"@,
        "registry_fetch"@ != "install"@,
        "registry_fetch"@ != "uninstall"@,
        "registry_fetch"@ != "list_installed"@,
        "registry_fetch"@ != "list_available"@,
        "search"@ != "install"@,
        "search"@ != "uninstall"@,
        "search"@ != "list_installed"@,
        "search"@ != "list_available"@,
        "install"@ != "uninstall"@,
        "install"@ != "list_installed"@,
        "install"@ != "list_available"@,
        "uninstall"@ != "list_installed"@,
        "uninstall"@ != "list_available"@,
        "list_installed"@ != "list_available"@,
{
    reveal_strlit("registry_fetch");
    reveal_strlit("search");
    reveal_strlit("install");
    reveal_strlit("uninstall");
    reveal_strlit("list_installed");
    reveal_strlit("list_available");
    assert("registry_fetch"@.len() == 14 && "registry_fetch"@[0] == 'r' && "registry_fetch"@[5] == 't');
    assert("search"@.len() == 6 && "search"@[0] == 's' && "search"@[5] == 'h');
    assert("install"@.len() == 7 && "install"@[0] == 'i' && "install"@[5] == 'l');
    assert("uninstall"@.len() == 9 && "uninstall"@[0] == 'u' && "uninstall"@[5] == 't');
    assert("list_installed"@.len() == 14 && "list_installed"@[0] == 'l' && "list_installed"@[5] == 'i');
    assert("list_available"@.len() == 14 && "list_available"@[0] == 'l' && "list_available"@[5] == 'a');
}

/// Schemas of every socket and registry controller.
pub fn all_controller_schemas() -> (r: Vec<ControllerSchema>)
    ensures
        r@.len() == skills_controller_schemas().len(),
        forall|i: int|
            0 <= i < r@.len() ==> schema_shape(#[trigger] r@[i]) == skills_controller_schemas()[i],
{
    proof {
        lemma_registry_names_distinct();
    }
    let r = vec![
        socket_schema("connect"),
        socket_schema("disconnect"),
        socket_schema("state"),
        socket_schema("emit"),
        skills_schema("registry_fetch"),
        skills_schema("search"),
        skills_schema("install"),
        skills_schema("uninstall"),
        skills_schema("list_installed"),
        skills_schema("list_available"),
    ];
    assert forall|i: int| 0 <= i < r@.len() implies schema_shape(#[trigger] r@[i])
        == skills_controller_schemas()[i] by {
        assert(0 <= i < 10);
    }
    r
}

/// Every socket and registry controller with its handler.
pub fn all_registered_controllers() -> (r: Vec<RegisteredController<SkillsHandler>>)
    ensures
        r@.len() == skills_controller_schemas().len(),
        forall|i: int|
            0 <= i < r@.len() ==> schema_shape(#[trigger] r@[i].schema)
                == skills_controller_schemas()[i] && r@[i].handler == skills_handlers()[i],
{
    proof {
        lemma_registry_names_distinct();
    }
    let r = vec![
        RegisteredController { schema: socket_schema("connect"), handler: SkillsHandler::SocketUnavailable },
        RegisteredController { schema: socket_schema("disconnect"), handler: SkillsHandler::SocketUnavailable },
        RegisteredController { schema: socket_schema("state"), handler: SkillsHandler::SocketUnavailable },
        RegisteredController { schema: socket_schema("emit"), handler: SkillsHandler::SocketUnavailable },
        RegisteredController { schema: skills_schema("registry_fetch"), handler: SkillsHandler::RegistryFetch },
        RegisteredController { schema: skills_schema("search"), handler: SkillsHandler::Search },
        RegisteredController { schema: skills_schema("install"), handler: SkillsHandler::Install },
        RegisteredController { schema: skills_schema("uninstall"), handler: SkillsHandler::Uninstall },
        RegisteredController { schema: skills_schema("list_installed"), handler: SkillsHandler::ListInstalled },
        RegisteredController { schema: skills_schema("list_available"), handler: SkillsHandler::ListAvailable },
    ];
    assert forall|i: int| 0 <= i < r@.len() implies schema_shape(#[trigger] r@[i].schema)
        == skills_controller_schemas()[i] && r@[i].handler == skills_handlers()[i] by {
        assert(0 <= i < 10);
    }
    r
}

} // verus!
