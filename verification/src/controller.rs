//! Controller schemas: the self-description each domain publishes for the
//! RPC / CLI controllers it exposes (namespace, function name, inputs and
//! outputs), and the pairing of a schema with the handler that serves it.
//!
//! Each exec type has a `shape`, a purely mathematical value with the same
//! content, so that contracts can state a whole schema as one value.

use vstd::prelude::*;

verus! {

/// The type of one controller input or output field.
pub enum TypeSchema {
    Bool,
    I64,
    U64,
    String,
    Json,
    Ref(&'static str),
    Array(Box<TypeSchema>),
    Optional(Box<TypeSchema>),
    Object { fields: Vec<FieldSchema> },
    Enum { variants: Vec<&'static str> },
}

/// One named input or output of a controller.
pub struct FieldSchema {
    pub name: &'static str,
    pub ty: TypeSchema,
    pub comment: &'static str,
    pub required: bool,
}

/// The full description of one controller.
pub struct ControllerSchema {
    pub namespace: &'static str,
    pub function: &'static str,
    pub description: &'static str,
    pub inputs: Vec<FieldSchema>,
    pub outputs: Vec<FieldSchema>,
}

/// A controller schema paired with the handler that serves it.  The handler
/// is named by a value of the domain's own handler enum; the runtime maps
/// that name to the asynchronous function that does the work.
pub struct RegisteredController<H> {
    pub schema: ControllerSchema,
    pub handler: H,
}

// ── Mathematical shapes ─────────────────────────────────────────────────

#[verifier::ext_equal]
pub enum TypeShape {
    Bool,
    I64,
    U64,
    Text,
    Json,
    Ref(Seq<char>),
    Array(Box<TypeShape>),
    Optional(Box<TypeShape>),
    Object(Seq<FieldShape>),
    Enum(Seq<Seq<char>>),
}

#[verifier::ext_equal]
pub struct FieldShape {
    pub name: Seq<char>,
    pub ty: TypeShape,
    pub comment: Seq<char>,
    pub required: bool,
}

#[verifier::ext_equal]
pub struct SchemaShape {
    pub namespace: Seq<char>,
    pub function: Seq<char>,
    pub description: Seq<char>,
    pub inputs: Seq<FieldShape>,
    pub outputs: Seq<FieldShape>,
}

/// The shape of a field type.
pub open spec fn type_shape(t: TypeSchema) -> TypeShape
    decreases t,
{
    match t {
        TypeSchema::Bool => TypeShape::Bool,
        TypeSchema::I64 => TypeShape::I64,
        TypeSchema::U64 => TypeShape::U64,
        TypeSchema::String => TypeShape::Text,
        TypeSchema::Json => TypeShape::Json,
        TypeSchema::Ref(name) => TypeShape::Ref(name@),
        TypeSchema::Array(inner) => TypeShape::Array(Box::new(type_shape(*inner))),
        TypeSchema::Optional(inner) => TypeShape::Optional(Box::new(type_shape(*inner))),
        TypeSchema::Object { fields } => TypeShape::Object(fields_shape(fields@)),
        TypeSchema::Enum { variants } => TypeShape::Enum(names_shape(variants@)),
    }
}

/// The shapes of a sequence of fields, in order.
pub open spec fn fields_shape(fs: Seq<FieldSchema>) -> Seq<FieldShape>
    decreases fs,
{
    if fs.len() == 0 {
        Seq::empty()
    } else {
        seq![field_shape(fs[0])] + fields_shape(fs.drop_first())
    }
}

/// The shape of one field.
pub open spec fn field_shape(f: FieldSchema) -> FieldShape
    decreases f,
{
    FieldShape {
        name: f.name@,
        ty: type_shape(f.ty),
        comment: f.comment@,
        required: f.required,
    }
}

/// `fields_shape` is the field-wise map of `field_shape`.
pub broadcast proof fn lemma_fields_shape_map(fs: Seq<FieldSchema>)
    ensures
        #[trigger] fields_shape(fs) == fs.map_values(|f: FieldSchema| field_shape(f)),
    decreases fs.len(),
{
    if fs.len() > 0 {
        lemma_fields_shape_map(fs.drop_first());
    }
    assert(fields_shape(fs) =~= fs.map_values(|f: FieldSchema| field_shape(f)));
}

/// The character sequences of a list of names.
pub open spec fn names_shape(ns: Seq<&'static str>) -> Seq<Seq<char>> {
    ns.map_values(|n: &'static str| n@)
}

/// The shape of a whole controller schema.
pub open spec fn schema_shape(s: ControllerSchema) -> SchemaShape {
    SchemaShape {
        namespace: s.namespace@,
        function: s.function@,
        description: s.description@,
        inputs: fields_shape(s.inputs@),
        outputs: fields_shape(s.outputs@),
    }
}

/// A field shape written from literals.
pub open spec fn field_of(name: &str, ty: TypeShape, comment: &str, required: bool) -> FieldShape {
    FieldShape { name: name@, ty, comment: comment@, required }
}

/// A schema shape written from literals.
pub open spec fn schema_of(
    namespace: &str,
    function: &str,
    description: &str,
    inputs: Seq<FieldShape>,
    outputs: Seq<FieldShape>,
) -> SchemaShape {
    SchemaShape {
        namespace: namespace@,
        function: function@,
        description: description@,
        inputs,
        outputs,
    }
}

} // verus!
