//! Deprecation warnings on their own, without the schema violations.

use crate::dsl::types::{into_result, reports};
use crate::dsl::types::{Finding, ValidationDiagnostic, Validator};
use crate::validators::schema_validator::{collect_deprecations, deprecation_findings};
use crate::schema::CheckSchema;
use serde_json::Value;
use vstd::prelude::*;

verus! {

/// Reports the places of a document that a schema marks as deprecated.
pub struct DeprecationValidator<'a> {
    pub schema: &'a CheckSchema,
}

impl<'a> DeprecationValidator<'a> {
    /// Validates `json_check`: `Ok` where nothing in it is deprecated, else
    /// `Err` with one warning per deprecated place. A document that violates
    /// the schema gets no warning.
    pub fn validate(&self, json_check: &Value, check_id: &str) -> (result: Result<
        (),
        Vec<ValidationDiagnostic>,
    >)
        ensures
            reports(result, deprecation_findings(self.schema@, check_id@, *json_check)),
    {
        into_result(collect_deprecations(json_check, check_id, self.schema))
    }
}

impl<'a> Validator for DeprecationValidator<'a> {
    open spec fn findings_in(&self, document: Value, check_id: Seq<char>) -> Seq<Finding> {
        deprecation_findings(self.schema@, check_id, document)
    }

    fn validate(&self, json_check: &Value, check_id: &str) -> (diagnostics: Vec<
        ValidationDiagnostic,
    >) {
        collect_deprecations(json_check, check_id, self.schema)
    }
}

} // verus!
