//! Validation of a check definition against a JSON schema.
//!
//! Two things are reported. Every violation of the schema is a critical
//! finding, with the schema engine's own words and pointer. Every place of a
//! valid document that the schema marks as deprecated is a warning.
//!
//! The schema engine does not follow `$ref` when it collects annotations, so a
//! deprecation that is declared inside a referenced definition goes unnoticed.

use crate::dsl::types::{findings, report};
use crate::dsl::types::{Finding, ValidationDiagnostic, Validator};
use crate::json::{json_flag, json_member, member};
use crate::schema::{annotations, schema_annotations, schema_violations, violations};
use crate::schema::{Annotation, AnnotationView, PathSegment, SegmentView, Violation, ViolationView};
use crate::schema::CheckSchema;
use crate::text::{decimal, decimal_string};
use jsonschema::JSONSchema;
use serde_json::Value;
use vstd::prelude::*;

verus! {

/// Validates documents against a compiled schema.
pub struct SchemaValidator<'a> {
    pub schema: &'a CheckSchema,
}

/// Whether an annotation marks its place as deprecated: its payload has a
/// member `deprecated` that is the boolean `true`.
pub open spec fn is_deprecated(annotation: AnnotationView) -> bool {
    match json_member(annotation.value, "deprecated"@) {
        Some(flag) => json_flag(flag) == Some(true),
        None => false,
    }
}

/// How a deprecated place is called in a message, by the kind of the last
/// segment of its path.
pub open spec fn locator(last_segment: Option<SegmentView>) -> Seq<char> {
    match last_segment {
        Some(SegmentView::Property(name)) => "Property '"@ + name + "'"@,
        Some(SegmentView::Index(index)) => "Element["@ + decimal(index) + "]"@,
        Some(SegmentView::Keyword(name)) => "Keyword '"@ + name + "'"@,
        None => "<unknown type>"@,
    }
}

/// The warning about a deprecated place.
pub open spec fn deprecation_finding(check_id: Seq<char>, annotation: AnnotationView) -> Finding {
    Finding::Warning {
        check_id,
        message: locator(annotation.last_segment)
            + " is deprecated and will be removed in the future"@,
        instance_path: annotation.instance_path,
    }
}

/// The warnings about the deprecated places among the first `count` of
/// `annotations`, in order.
pub open spec fn deprecations_of_first(
    check_id: Seq<char>,
    annotations: Seq<AnnotationView>,
    count: nat,
) -> Seq<Finding>
    decreases count,
{
    if count == 0 {
        Seq::empty()
    } else {
        let index = (count - 1) as nat;
        let earlier = deprecations_of_first(check_id, annotations, index);
        if is_deprecated(annotations[index as int]) {
            earlier.push(deprecation_finding(check_id, annotations[index as int]))
        } else {
            earlier
        }
    }
}

/// The warnings about the deprecated places among `annotations`.
pub open spec fn deprecations_among(check_id: Seq<char>, annotations: Seq<AnnotationView>) -> Seq<
    Finding,
> {
    deprecations_of_first(check_id, annotations, annotations.len())
}

/// The deprecation warnings about `document`. A document whose output is
/// invalid collects no annotations and so gets no warning.
pub open spec fn deprecation_findings(schema: JSONSchema, check_id: Seq<char>, document: Value) -> Seq<
    Finding,
> {
    match schema_annotations(schema, document) {
        Some(annotations) => deprecations_among(check_id, annotations),
        None => Seq::empty(),
    }
}

/// One critical finding per violation, with the violation's message and
/// pointer unchanged.
pub open spec fn violation_findings(check_id: Seq<char>, violations: Seq<ViolationView>) -> Seq<
    Finding,
> {
    violations.map_values(
        |violation: ViolationView|
            Finding::Critical {
                check_id,
                message: violation.message,
                instance_path: violation.instance_path,
            },
    )
}

/// Everything the schema validator finds in `document`: the violations first,
/// the deprecations after them.
pub open spec fn schema_findings(schema: JSONSchema, check_id: Seq<char>, document: Value) -> Seq<
    Finding,
> {
    violation_findings(check_id, schema_violations(schema, document)) + deprecation_findings(
        schema,
        check_id,
        document,
    )
}

fn locator_of(last_segment: Option<PathSegment>) -> (text: String)
    ensures
        text@ == locator(
            match last_segment {
                Some(segment) => Some(segment@),
                None => None,
            },
        ),
{
    match last_segment {
        Some(PathSegment::Property(name)) => {
            let mut text = "Property '".to_owned();
            text.append(name.as_str());
            text.append("'");
            text
        },
        Some(PathSegment::Index(index)) => {
            let mut text = "Element[".to_owned();
            text.append(decimal_string(index).as_str());
            text.append("]");
            text
        },
        Some(PathSegment::Keyword(name)) => {
            let mut text = "Keyword '".to_owned();
            text.append(name.as_str());
            text.append("'");
            text
        },
        None => "<unknown type>".to_owned(),
    }
}

fn marks_deprecated(annotation: &Annotation) -> (deprecated: bool)
    ensures
        deprecated == is_deprecated(annotation@),
{
    match member(&annotation.value, "deprecated") {
        Some(flag) => match flag.as_bool() {
            Some(is_deprecated) => is_deprecated,
            None => false,
        },
        None => false,
    }
}

/// Turns the annotations of a valid document into warnings: one for each
/// annotation that marks its place as deprecated, in order.
pub fn deprecation_warnings(annotations: Vec<Annotation>, check_id: &str) -> (diagnostics: Vec<
    ValidationDiagnostic,
>)
    ensures
        findings(diagnostics@) == deprecations_among(
            check_id@,
            annotations@.map_values(|a: Annotation| a@),
        ),
{
    let mut diagnostics: Vec<ValidationDiagnostic> = Vec::new();
    let ghost all = annotations@.map_values(|a: Annotation| a@);
    for annotation in iter: annotations
        invariant
            iter.seq().map_values(|a: Annotation| a@) == all,
            findings(diagnostics@) == deprecations_of_first(check_id@, all, iter.index() as nat),
    {
        assert(all[iter.index() as int] == annotation@);
        if marks_deprecated(&annotation) {
            let mut message = locator_of(annotation.last_segment);
            message.append(" is deprecated and will be removed in the future");
            report(
                &mut diagnostics,
                ValidationDiagnostic::warning(check_id, message, annotation.instance_path),
            );
        }
    }
    diagnostics
}

/// Turns schema violations into critical findings, in order.
pub fn violation_diagnostics(violations: Vec<Violation>, check_id: &str) -> (diagnostics: Vec<
    ValidationDiagnostic,
>)
    ensures
        findings(diagnostics@) == violation_findings(
            check_id@,
            violations@.map_values(|v: Violation| v@),
        ),
{
    let mut diagnostics: Vec<ValidationDiagnostic> = Vec::new();
    let ghost all = violations@.map_values(|v: Violation| v@);
    for violation in iter: violations
        invariant
            iter.seq().map_values(|v: Violation| v@) == all,
            findings(diagnostics@) == violation_findings(check_id@, all.take(iter.index() as int)),
    {
        assert(all[iter.index() as int] == violation@);
        report(
            &mut diagnostics,
            ValidationDiagnostic::critical(check_id, violation.message, violation.instance_path),
        );
        assert(findings(diagnostics@) =~= violation_findings(
            check_id@,
            all.take(iter.index() + 1),
        ));
    }
    assert(all.take(all.len() as int) =~= all);
    diagnostics
}

/// Collects the deprecation warnings about `json_check`.
pub fn collect_deprecations(json_check: &Value, check_id: &str, schema: &CheckSchema) -> (diagnostics:
    Vec<ValidationDiagnostic>)
    ensures
        findings(diagnostics@) == deprecation_findings(schema@, check_id@, *json_check),
{
    match annotations(schema, json_check) {
        Some(annotations) => deprecation_warnings(annotations, check_id),
        None => Vec::new(),
    }
}

/// Validates `json_check` against `schema`: the violations as critical
/// findings, followed by the deprecation warnings.
pub fn validate_schema(json_check: &Value, check_id: &str, schema: &CheckSchema) -> (diagnostics:
    Vec<ValidationDiagnostic>)
    ensures
        findings(diagnostics@) == schema_findings(schema@, check_id@, *json_check),
{
    let deprecation_warnings = collect_deprecations(json_check, check_id, schema);
    let mut validation_errors = violation_diagnostics(violations(schema, json_check), check_id);
    crate::dsl::types::report_all(&mut validation_errors, deprecation_warnings);
    validation_errors
}

impl<'a> Validator for SchemaValidator<'a> {
    open spec fn findings_in(&self, document: Value, check_id: Seq<char>) -> Seq<Finding> {
        schema_findings(self.schema@, check_id, document)
    }

    fn validate(&self, json_check: &Value, check_id: &str) -> (diagnostics: Vec<
        ValidationDiagnostic,
    >) {
        validate_schema(json_check, check_id, self.schema)
    }
}

proof fn no_deprecation_no_warning(check_id: Seq<char>, annotations: Seq<AnnotationView>, count: nat)
    requires
        count <= annotations.len(),
        forall|i: int| 0 <= i < count ==> !is_deprecated(annotations[i]),
    ensures
        deprecations_of_first(check_id, annotations, count) == Seq::<Finding>::empty(),
    decreases count,
{
    if count > 0 {
        no_deprecation_no_warning(check_id, annotations, (count - 1) as nat);
    }
}

proof fn one_deprecation_one_warning(
    check_id: Seq<char>,
    annotations: Seq<AnnotationView>,
    place: int,
    count: nat,
)
    requires
        count <= annotations.len(),
        0 <= place < annotations.len(),
        forall|i: int| 0 <= i < count ==> (is_deprecated(annotations[i]) <==> i == place),
    ensures
        deprecations_of_first(check_id, annotations, count) == if place < count {
            seq![deprecation_finding(check_id, annotations[place])]
        } else {
            Seq::<Finding>::empty()
        },
    decreases count,
{
    if count > 0 {
        one_deprecation_one_warning(check_id, annotations, place, (count - 1) as nat);
        if place == count - 1 {
            assert(Seq::<Finding>::empty().push(deprecation_finding(check_id, annotations[place]))
                =~= seq![deprecation_finding(check_id, annotations[place])]);
        }
    }
}

/// A document that violates nothing and has no deprecated place gets no
/// finding from the schema validator.
pub proof fn clean_document_has_no_findings(schema: JSONSchema, check_id: Seq<char>, document: Value)
    requires
        schema_violations(schema, document).len() == 0,
        schema_annotations(schema, document) matches Some(annotations) ==> forall|i: int|
            0 <= i < annotations.len() ==> !is_deprecated(annotations[i]),
    ensures
        schema_findings(schema, check_id, document) == Seq::<Finding>::empty(),
{
    match schema_annotations(schema, document) {
        Some(annotations) => {
            no_deprecation_no_warning(check_id, annotations, annotations.len());
        },
        None => {},
    }
    assert(schema_findings(schema, check_id, document) =~= Seq::<Finding>::empty());
}

/// A document with exactly one violation gets exactly one critical finding,
/// before anything else: it carries the violation's message and pointer as
/// the schema engine gave them. What follows it are deprecation warnings.
pub proof fn single_violation_is_reported_as_it_is(
    schema: JSONSchema,
    check_id: Seq<char>,
    document: Value,
    violation: ViolationView,
)
    requires
        schema_violations(schema, document) == seq![violation],
    ensures
        schema_findings(schema, check_id, document) == seq![
            Finding::Critical {
                check_id,
                message: violation.message,
                instance_path: violation.instance_path,
            },
        ] + deprecation_findings(schema, check_id, document),
{
    assert(violation_findings(check_id, seq![violation]) =~= seq![
        Finding::Critical {
            check_id,
            message: violation.message,
            instance_path: violation.instance_path,
        },
    ]);
}

/// A valid document with exactly one deprecated place gets exactly one
/// finding: the warning about that place, at the place's pointer.
pub proof fn single_deprecation_is_reported_alone(
    schema: JSONSchema,
    check_id: Seq<char>,
    document: Value,
    annotations: Seq<AnnotationView>,
    place: int,
)
    requires
        schema_violations(schema, document).len() == 0,
        schema_annotations(schema, document) == Some(annotations),
        0 <= place < annotations.len(),
        forall|i: int| 0 <= i < annotations.len() ==> (is_deprecated(annotations[i]) <==> i == place),
    ensures
        schema_findings(schema, check_id, document) == seq![
            deprecation_finding(check_id, annotations[place]),
        ],
{
    one_deprecation_one_warning(check_id, annotations, place, annotations.len());
    assert(schema_findings(schema, check_id, document) =~= seq![
        deprecation_finding(check_id, annotations[place]),
    ]);
}

} // verus!
