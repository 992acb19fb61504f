//! Running the validators over a check definition.
//!
//! The caller chooses which validators run. They always run in the same
//! order: expectations, links, schema, values. Each runs to its end whatever
//! the others report, and nothing is dropped or reordered on the way.

use super::types::{findings, into_result, report_all, reports, result_findings};
use super::types::{Finding, ValidationDiagnostic, Validator};
use crate::schema::{embedded_schema, CheckSchema};
use crate::validators::expectation_validator::{expectations_findings, ExpectationValidator};
use crate::validators::link_validator::{link_findings, LinkCheck, LinkValidator};
use crate::validators::schema_validator::{schema_findings, SchemaValidator};
use crate::validators::value_validator::{values_findings, ValueValidator};
use jsonschema::JSONSchema;
use rhai::Engine;
use serde_json::Value;
use vstd::prelude::*;

verus! {

/// The validators that a caller can switch on.
#[derive(Debug, Clone, Copy, PartialEq, Eq, Structural)]
pub enum EnabledValidator {
    Expectation,
    Link,
    Schema,
    Value,
}

/// The schema of a check definition, as JSON text. It is written out in full:
/// no `$ref` stands in it, so that validating against it always comes to an
/// end.
pub const SCHEMA: &'static str = r#"{
  "$schema": "https://json-schema.org/draft/2019-09/schema",
  "title": "Check definition",
  "additionalProperties": false,
  "properties": {
    "description": { "type": "string" },
    "expectations": {
      "items": {
        "additionalProperties": false,
        "oneOf": [
          { "required": ["expect"] },
          { "required": ["expect_same"] },
          { "required": ["expect_enum"] }
        ],
        "properties": {
          "expect": { "type": "string" },
          "expect_enum": { "type": "string" },
          "expect_same": { "type": "string" },
          "failure_message": { "type": "string" },
          "name": { "type": "string" },
          "warning_message": { "type": "string" }
        },
        "required": ["name"],
        "type": "object"
      },
      "type": "array"
    },
    "facts": {
      "items": {
        "additionalProperties": false,
        "properties": {
          "argument": { "type": "string" },
          "gatherer": { "type": "string" },
          "name": { "type": "string" }
        },
        "required": ["name", "gatherer"],
        "type": "object"
      },
      "type": "array"
    },
    "group": { "type": "string" },
    "id": { "type": "string" },
    "metadata": {
      "additionalProperties": false,
      "patternProperties": { "\\S": {} },
      "type": "object"
    },
    "name": { "type": "string" },
    "premium": { "deprecated": true, "type": "boolean" },
    "remediation": { "type": "string" },
    "values": {
      "items": {
        "additionalProperties": false,
        "properties": {
          "conditions": {
            "items": {
              "additionalProperties": false,
              "properties": {
                "value": { "type": "integer" },
                "when": { "type": "string" }
              },
              "required": ["value", "when"],
              "type": "object"
            },
            "type": "array"
          },
          "default": { "type": "integer" },
          "name": { "type": "string" }
        },
        "required": ["name", "default"],
        "type": "object"
      },
      "type": "array"
    },
    "when": { "type": "string" }
  },
  "required": ["id", "name", "group", "description", "remediation", "facts", "expectations"],
  "type": "object"
}"#;

/// Compiles the embedded schema. A caller that gets `None` cannot validate
/// anything and is expected to give up: there is no other schema.
pub fn get_json_schema() -> (schema: Option<CheckSchema>)
    ensures
        schema matches Some(made) ==> embedded_schema() == Some(made@),
        schema is None ==> embedded_schema() is None,
{
    CheckSchema::embedded()
}

/// What a validator contributes to a run: its findings where it is enabled,
/// nothing where it is not.
pub open spec fn contribution(
    enabled: Seq<EnabledValidator>,
    validator: EnabledValidator,
    found: Seq<Finding>,
) -> Seq<Finding> {
    if enabled.contains(validator) {
        found
    } else {
        Seq::empty()
    }
}

/// Everything that the enabled validators find in `document`: the findings of
/// each enabled validator as it reports them, one validator after the other.
/// `link_checks` are the outcomes of the link checks made for the document.
pub open spec fn validation_findings(
    document: Value,
    check_id: Seq<char>,
    schema: JSONSchema,
    engine: Engine,
    link_checks: Seq<LinkCheck>,
    enabled: Seq<EnabledValidator>,
) -> Seq<Finding> {
    contribution(
        enabled,
        EnabledValidator::Expectation,
        expectations_findings(engine, check_id, document),
    ) + contribution(enabled, EnabledValidator::Link, link_findings(check_id, link_checks))
        + contribution(enabled, EnabledValidator::Schema, schema_findings(schema, check_id, document))
        + contribution(enabled, EnabledValidator::Value, values_findings(engine, check_id, document))
}

/// Whether `validator` is among `enabled`.
pub fn is_enabled(enabled: &Vec<EnabledValidator>, validator: EnabledValidator) -> (found: bool)
    ensures
        found == enabled@.contains(validator),
{
    let mut index: usize = 0;
    while index < enabled.len()
        invariant
            index <= enabled.len(),
            forall|i: int| 0 <= i < index ==> enabled@[i] != validator,
        decreases enabled.len() - index,
    {
        if enabled[index] == validator {
            return true;
        }
        index += 1;
    }
    false
}

/// Runs the enabled validators over `json_check` and gathers what they report.
/// The result is `Ok` where they report nothing, else `Err` with all their
/// diagnostics. `links` holds the outcomes of the link checks, which the
/// caller has made beforehand; it is read only where link validation is
/// enabled.
pub fn validate(
    json_check: &Value,
    check_id: &str,
    schema: &CheckSchema,
    engine: &Engine,
    links: &LinkValidator,
    enabled: &Vec<EnabledValidator>,
) -> (result: Result<(), Vec<ValidationDiagnostic>>)
    ensures
        reports(
            result,
            validation_findings(*json_check, check_id@, schema@, *engine, links.checks@, enabled@),
        ),
{
    let mut errors: Vec<ValidationDiagnostic> = Vec::new();
    assert(findings(errors@) =~= Seq::<Finding>::empty());

    if is_enabled(enabled, EnabledValidator::Expectation) {
        let expectation_validator = ExpectationValidator { engine };
        report_all(&mut errors, expectation_validator.validate(json_check, check_id));
    }
    if is_enabled(enabled, EnabledValidator::Link) {
        report_all(&mut errors, links.validate(json_check, check_id));
    }
    if is_enabled(enabled, EnabledValidator::Schema) {
        let schema_validator = SchemaValidator { schema };
        report_all(&mut errors, schema_validator.validate(json_check, check_id));
    }
    if is_enabled(enabled, EnabledValidator::Value) {
        let value_validator = ValueValidator { engine };
        report_all(&mut errors, value_validator.validate(json_check, check_id));
    }
    assert(findings(errors@) =~= validation_findings(
        *json_check,
        check_id@,
        schema@,
        *engine,
        links.checks@,
        enabled@,
    ));
    into_result(errors)
}

/// Validating twice gives the same result: two results for the same document,
/// check, schema, engine, link checks and enabled validators agree on whether
/// the validation succeeded and report the same findings in the same order.
pub proof fn validation_is_repeatable(
    first: Result<(), Vec<ValidationDiagnostic>>,
    second: Result<(), Vec<ValidationDiagnostic>>,
    document: Value,
    check_id: Seq<char>,
    schema: JSONSchema,
    engine: Engine,
    link_checks: Seq<LinkCheck>,
    enabled: Seq<EnabledValidator>,
)
    requires
        reports(
            first,
            validation_findings(document, check_id, schema, engine, link_checks, enabled),
        ),
        reports(
            second,
            validation_findings(document, check_id, schema, engine, link_checks, enabled),
        ),
    ensures
        first is Ok <==> second is Ok,
        result_findings(first) == result_findings(second),
{
}

/// A validator that is not enabled contributes nothing, and the order in
/// which validators are named does not matter: two lists that enable the same
/// validators give the same findings.
pub proof fn only_membership_matters(
    document: Value,
    check_id: Seq<char>,
    schema: JSONSchema,
    engine: Engine,
    link_checks: Seq<LinkCheck>,
    left: Seq<EnabledValidator>,
    right: Seq<EnabledValidator>,
)
    requires
        forall|validator: EnabledValidator| left.contains(validator) <==> right.contains(validator),
    ensures
        validation_findings(document, check_id, schema, engine, link_checks, left)
            == validation_findings(document, check_id, schema, engine, link_checks, right),
{
}

} // verus!
