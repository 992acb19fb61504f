//! Validation of declarative check definitions.
//!
//! A check definition arrives as a generic JSON tree. Independent validators
//! inspect it and report diagnostics, each with a severity, the identifier of
//! the check and the place in the tree it speaks of.

use dsl::types::{reports, ValidationDiagnostic};
use dsl::validation::{validation_findings, EnabledValidator};
use rhai::Engine;
use schema::CheckSchema;
use serde_json::Value;
use validators::link_validator::{LinkCheck, LinkValidator};
use vstd::prelude::*;

pub mod cli;
pub mod dsl;
pub mod json;
pub mod markdown;
pub mod schema;
pub mod script;
pub mod text;
pub mod validators;
pub mod www;
pub mod yaml;

verus! {

/// The validators that `validate` runs: all that need nothing from outside the
/// document.
pub open spec fn offline_validators() -> Seq<EnabledValidator> {
    seq![EnabledValidator::Expectation, EnabledValidator::Schema, EnabledValidator::Value]
}

/// Validates `json_check` against `schema`, with the expectation, schema and
/// value validators. Links are not validated here: that needs the outcomes of
/// link checks, which `dsl::validation::validate` takes.
pub fn validate(json_check: &Value, check_id: &str, schema: &CheckSchema, engine: &Engine) -> (result:
    Result<(), Vec<ValidationDiagnostic>>)
    ensures
        reports(
            result,
            validation_findings(
                *json_check,
                check_id@,
                schema@,
                *engine,
                Seq::<LinkCheck>::empty(),
                offline_validators(),
            ),
        ),
{
    let links = LinkValidator { checks: Vec::new() };
    let mut enabled: Vec<EnabledValidator> = Vec::new();
    enabled.push(EnabledValidator::Expectation);
    enabled.push(EnabledValidator::Schema);
    enabled.push(EnabledValidator::Value);
    assert(enabled@ =~= offline_validators());
    assert(links.checks@ =~= Seq::<LinkCheck>::empty());
    dsl::validation::validate(json_check, check_id, schema, engine, &links, &enabled)
}

} // verus!
