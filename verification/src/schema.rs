//! Applying a compiled JSON schema to a document.
//!
//! The schema engine is `jsonschema`. A compiled schema stays opaque to the
//! verifier. What the validators read from it is named here: the violations
//! that a document commits, and the annotations that a valid document
//! collects.
//!
//! The engine follows a reference in a schema while it validates, and a
//! reference that reaches itself sends it round without end. So the engine is
//! only ever asked about one schema: the embedded one, which holds no
//! reference. `CheckSchema` is that schema, compiled; there is no other way to
//! make one.

use crate::dsl::validation::SCHEMA;
use crate::json::{parse_json, parsed_json};
use jsonschema::output::BasicOutput;
use jsonschema::paths::PathChunk;
use jsonschema::{Draft, JSONSchema};
use serde_json::Value;
use vstd::prelude::*;

verus! {

#[verifier::external_type_specification]
#[verifier::external_body]
pub struct ExJSONSchema(jsonschema::JSONSchema);

/// The embedded schema, compiled: `Some` exactly when `SCHEMA` is JSON text
/// that denotes a schema of draft 2019-09.
pub open spec fn embedded_schema() -> Option<JSONSchema> {
    match parsed_json(SCHEMA@) {
        Some(definition) => compiled_schema(definition),
        None => None,
    }
}

/// The schema of a check definition, compiled. Every value of this type is
/// the embedded schema.
pub struct CheckSchema {
    compiled: JSONSchema,
}

impl View for CheckSchema {
    type V = JSONSchema;

    closed spec fn view(&self) -> JSONSchema {
        self.compiled
    }
}

impl CheckSchema {
    #[verifier::type_invariant]
    spec fn is_embedded(self) -> bool {
        embedded_schema() == Some(self.compiled)
    }

    /// Compiles the embedded schema: `None` where it does not compile.
    pub fn embedded() -> (schema: Option<CheckSchema>)
        ensures
            schema matches Some(made) ==> embedded_schema() == Some(made@),
            schema is None ==> embedded_schema() is None,
    {
        match parse_json(SCHEMA) {
            Some(definition) => match compile_schema(&definition) {
                Some(compiled) => Some(CheckSchema { compiled }),
                None => None,
            },
            None => None,
        }
    }
}

/// One violation of a schema: what the schema engine says about it and the
/// JSON pointer of the offending node.
pub struct Violation {
    pub message: String,
    pub instance_path: String,
}

/// A violation as plain sequences.
pub struct ViolationView {
    pub message: Seq<char>,
    pub instance_path: Seq<char>,
}

impl View for Violation {
    type V = ViolationView;

    open spec fn view(&self) -> ViolationView {
        ViolationView { message: self.message@, instance_path: self.instance_path@ }
    }
}

/// The last step of a path into a document or a schema.
pub enum PathSegment {
    /// The name of a property of an object.
    Property(String),
    /// The index of an element of an array.
    Index(usize),
    /// The name of a schema keyword.
    Keyword(String),
}

/// A path segment as plain values.
pub enum SegmentView {
    Property(Seq<char>),
    Index(nat),
    Keyword(Seq<char>),
}

impl View for PathSegment {
    type V = SegmentView;

    open spec fn view(&self) -> SegmentView {
        match *self {
            PathSegment::Property(name) => SegmentView::Property(name@),
            PathSegment::Index(index) => SegmentView::Index(index as nat),
            PathSegment::Keyword(name) => SegmentView::Keyword(name@),
        }
    }
}

/// What a schema attaches to a place in a valid document: the annotation
/// payload, the last segment of the path to the place (none for the root) and
/// the path as a JSON pointer.
pub struct Annotation {
    pub value: Value,
    pub last_segment: Option<PathSegment>,
    pub instance_path: String,
}

/// An annotation as plain values. The payload stays a JSON tree.
pub struct AnnotationView {
    pub value: Value,
    pub last_segment: Option<SegmentView>,
    pub instance_path: Seq<char>,
}

impl View for Annotation {
    type V = AnnotationView;

    open spec fn view(&self) -> AnnotationView {
        AnnotationView {
            value: self.value,
            last_segment: match self.last_segment {
                Some(segment) => Some(segment@),
                None => None,
            },
            instance_path: self.instance_path@,
        }
    }
}

/// The violations that `document` commits against `schema`, in the order in
/// which the schema engine lists them. None for a valid document.
pub uninterp spec fn schema_violations(schema: JSONSchema, document: Value) -> Seq<ViolationView>;

/// The annotations that `document` collects from `schema`, in the order of the
/// engine's basic output: `Some` where that output is valid, `None` where it
/// is not.
pub uninterp spec fn schema_annotations(schema: JSONSchema, document: Value) -> Option<
    Seq<AnnotationView>,
>;

/// `jsonschema::JSONSchema::validate`, on the embedded schema: every error
/// that the iterator yields, as its `Display` text and the `Display` text of
/// its `instance_path`; no error where the call returns `Ok`. Schema and
/// document are not changed, so the same two give the same list. The embedded
/// schema holds no reference, so the call returns on every document.
#[verifier::external_body]
pub(crate) fn violations(schema: &CheckSchema, document: &Value) -> (found: Vec<Violation>)
    ensures
        found@.map_values(|v: Violation| v@) == schema_violations(schema@, *document),
{
    match schema.compiled.validate(document) {
        Ok(_) => Vec::new(),
        Err(errors) => errors.map(|error| Violation {
            message: error.to_string(),
            instance_path: error.instance_path.to_string(),
        }).collect(),
    }
}

/// The schema that `definition` compiles to under draft 2019-09: `Some`
/// exactly when `definition` is a schema of that draft.
pub uninterp spec fn compiled_schema(definition: Value) -> Option<JSONSchema>;

/// `jsonschema::CompilationOptions::compile` with the draft set to 2019-09:
/// the compiled schema, `None` where the compiler reports an error. The same
/// definition compiles to the same schema.
#[verifier::external_body]
fn compile_schema(definition: &Value) -> (compiled: Option<JSONSchema>)
    ensures
        compiled == compiled_schema(*definition),
{
    JSONSchema::options().with_draft(Draft::Draft201909).compile(definition).ok()
}

/// The annotations of an output as plain values.
pub open spec fn annotations_view(annotations: Option<Vec<Annotation>>) -> Option<
    Seq<AnnotationView>,
> {
    match annotations {
        Some(units) => Some(units@.map_values(|a: Annotation| a@)),
        None => None,
    }
}

/// `jsonschema::JSONSchema::apply` followed by `Output::basic`, on the
/// embedded schema: for a valid output every unit with its `value`, the last
/// chunk of its `instance_location` and that location's `Display` text; `None`
/// for an invalid output. The embedded schema holds no reference, so the call
/// returns on every document.
#[verifier::external_body]
pub(crate) fn annotations(schema: &CheckSchema, document: &Value) -> (found: Option<Vec<Annotation>>)
    ensures
        annotations_view(found) == schema_annotations(schema@, *document),
{
    match schema.compiled.apply(document).basic() {
        BasicOutput::Valid(units) => Some(units.iter().map(|unit| Annotation {
            value: unit.value().into_owned(),
            last_segment: unit.instance_location().last().map(|chunk| match chunk {
                PathChunk::Property(name) => PathSegment::Property(name.to_string()),
                PathChunk::Index(index) => PathSegment::Index(*index),
                PathChunk::Keyword(name) => PathSegment::Keyword(name.to_string()),
            }),
            instance_path: unit.instance_location().to_string(),
        }).collect()),
        BasicOutput::Invalid(_) => None,
    }
}

} // verus!
