//! Validation of the `values` of a check definition.
//!
//! Every condition of every value has a `when` expression. It is compiled, not
//! evaluated: a condition is reported where its expression does not compile.

use crate::dsl::types::{findings, report, report_all};
use crate::dsl::types::{Finding, ValidationDiagnostic, Validator};
use crate::json::{elements_under, member, text_of, text_under};
use crate::script::{compile, script_error};
use crate::text::{decimal, decimal_string};
use rhai::Engine;
use serde_json::Value;
use vstd::prelude::*;

verus! {

/// Validates the conditions of values with the help of a script engine.
pub struct ValueValidator<'a> {
    pub engine: &'a Engine,
}

/// The JSON pointer of condition `condition_index` of value `value_index`.
pub open spec fn condition_path(value_index: nat, condition_index: nat) -> Seq<char> {
    "/values/"@ + decimal(value_index) + "/conditions/"@ + decimal(condition_index)
}

/// The findings about one condition: a critical one with the error text where
/// its `when` expression does not compile. A condition without `when` is taken
/// to have the empty expression.
pub open spec fn condition_findings(
    engine: Engine,
    check_id: Seq<char>,
    condition: Value,
    value_index: nat,
    condition_index: nat,
) -> Seq<Finding> {
    match script_error(engine, text_under(condition, "when"@)) {
        Some(text) => seq![
            Finding::Critical {
                check_id,
                message: text,
                instance_path: condition_path(value_index, condition_index),
            },
        ],
        None => Seq::empty(),
    }
}

/// The findings about the first `count` of the `conditions` of one value.
pub open spec fn conditions_findings(
    engine: Engine,
    check_id: Seq<char>,
    conditions: Seq<Value>,
    value_index: nat,
    count: nat,
) -> Seq<Finding>
    decreases count,
{
    if count == 0 {
        Seq::empty()
    } else {
        let index = (count - 1) as nat;
        conditions_findings(engine, check_id, conditions, value_index, index) + condition_findings(
            engine,
            check_id,
            conditions[index as int],
            value_index,
            index,
        )
    }
}

/// The findings about one value: those about its conditions, in order.
pub open spec fn value_findings(engine: Engine, check_id: Seq<char>, value: Value, value_index: nat) -> Seq<
    Finding,
> {
    let conditions = elements_under(value, "conditions"@);
    conditions_findings(engine, check_id, conditions, value_index, conditions.len())
}

/// The findings about the first `count` of `values`.
pub open spec fn findings_of_first(engine: Engine, check_id: Seq<char>, values: Seq<Value>, count: nat) -> Seq<
    Finding,
>
    decreases count,
{
    if count == 0 {
        Seq::empty()
    } else {
        let index = (count - 1) as nat;
        findings_of_first(engine, check_id, values, index) + value_findings(
            engine,
            check_id,
            values[index as int],
            index,
        )
    }
}

/// The findings about the values of `document`.
pub open spec fn values_findings(engine: Engine, check_id: Seq<char>, document: Value) -> Seq<Finding> {
    let values = elements_under(document, "values"@);
    findings_of_first(engine, check_id, values, values.len())
}

fn path_of(value_index: usize, condition_index: usize) -> (path: String)
    ensures
        path@ == condition_path(value_index as nat, condition_index as nat),
{
    let mut path = "/values/".to_owned();
    path.append(decimal_string(value_index).as_str());
    path.append("/conditions/");
    path.append(decimal_string(condition_index).as_str());
    path
}

fn validate_condition(
    condition: &Value,
    check_id: &str,
    engine: &Engine,
    value_index: usize,
    condition_index: usize,
) -> (diagnostics: Vec<ValidationDiagnostic>)
    ensures
        findings(diagnostics@) == condition_findings(
            *engine,
            check_id@,
            *condition,
            value_index as nat,
            condition_index as nat,
        ),
{
    let mut diagnostics: Vec<ValidationDiagnostic> = Vec::new();
    let when_expression: &str = match member(condition, "when") {
        Some(when) => text_of(when),
        None => {
            proof {
                reveal_strlit("");
            }
            assert(""@ =~= Seq::<char>::empty());
            ""
        },
    };
    match compile(engine, when_expression) {
        Ok(_) => {},
        Err(text) => {
            report(
                &mut diagnostics,
                ValidationDiagnostic::critical(check_id, text, path_of(value_index, condition_index)),
            );
        },
    }
    assert(findings(diagnostics@) =~= condition_findings(
        *engine,
        check_id@,
        *condition,
        value_index as nat,
        condition_index as nat,
    ));
    diagnostics
}

fn validate_value(value: &Value, check_id: &str, engine: &Engine, value_index: usize) -> (diagnostics:
    Vec<ValidationDiagnostic>)
    ensures
        findings(diagnostics@) == value_findings(*engine, check_id@, *value, value_index as nat),
{
    let mut diagnostics: Vec<ValidationDiagnostic> = Vec::new();
    let conditions = match member(value, "conditions") {
        Some(found) => found.as_array(),
        None => None,
    };
    match conditions {
        Some(conditions) => {
            let mut index: usize = 0;
            while index < conditions.len()
                invariant
                    index <= conditions.len(),
                    conditions@ == elements_under(*value, "conditions"@),
                    findings(diagnostics@) == conditions_findings(
                        *engine,
                        check_id@,
                        conditions@,
                        value_index as nat,
                        index as nat,
                    ),
                decreases conditions.len() - index,
            {
                let more = validate_condition(
                    &conditions[index],
                    check_id,
                    engine,
                    value_index,
                    index,
                );
                report_all(&mut diagnostics, more);
                index += 1;
            }
        },
        None => {},
    }
    diagnostics
}

/// Compiles the `when` expression of every condition of every value, in order.
/// Where the document has no `values` array there is nothing to report.
pub fn validate_values(json_check: &Value, check_id: &str, engine: &Engine) -> (diagnostics: Vec<
    ValidationDiagnostic,
>)
    ensures
        findings(diagnostics@) == values_findings(*engine, check_id@, *json_check),
{
    let mut diagnostics: Vec<ValidationDiagnostic> = Vec::new();
    let values = match member(json_check, "values") {
        Some(found) => found.as_array(),
        None => None,
    };
    match values {
        Some(values) => {
            let mut index: usize = 0;
            while index < values.len()
                invariant
                    index <= values.len(),
                    values@ == elements_under(*json_check, "values"@),
                    findings(diagnostics@) == findings_of_first(
                        *engine,
                        check_id@,
                        values@,
                        index as nat,
                    ),
                decreases values.len() - index,
            {
                let more = validate_value(&values[index], check_id, engine, index);
                report_all(&mut diagnostics, more);
                index += 1;
            }
        },
        None => {},
    }
    diagnostics
}

impl<'a> Validator for ValueValidator<'a> {
    open spec fn findings_in(&self, document: Value, check_id: Seq<char>) -> Seq<Finding> {
        values_findings(*self.engine, check_id, document)
    }

    fn validate(&self, json_check: &Value, check_id: &str) -> (diagnostics: Vec<
        ValidationDiagnostic,
    >) {
        validate_values(json_check, check_id, self.engine)
    }
}

} // verus!
