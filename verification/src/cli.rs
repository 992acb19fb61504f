//! The decisions of the command line: which validators a choice of rules
//! enables, which files of a directory are checks, and how a run ends.

use crate::dsl::types::{result_findings, ValidationDiagnostic};
use crate::dsl::validation::EnabledValidator;
use std::path::Path;
use vstd::prelude::*;

verus! {

/// A rule as named on the command line: one validator, or all of them.
#[derive(Debug, Clone, Copy, PartialEq, Eq, Structural)]
pub enum ArgValidator {
    All,
    Expectation,
    Link,
    Schema,
    Value,
}

impl ArgValidator {
    /// The validator that this rule names; none for `All`.
    pub open spec fn enabled(self) -> Option<EnabledValidator> {
        match self {
            ArgValidator::All => None,
            ArgValidator::Expectation => Some(EnabledValidator::Expectation),
            ArgValidator::Link => Some(EnabledValidator::Link),
            ArgValidator::Schema => Some(EnabledValidator::Schema),
            ArgValidator::Value => Some(EnabledValidator::Value),
        }
    }
}

impl From<ArgValidator> for Option<EnabledValidator> {
    fn from(rule: ArgValidator) -> (validator: Option<EnabledValidator>) {
        match rule {
            ArgValidator::All => None,
            ArgValidator::Expectation => Some(EnabledValidator::Expectation),
            ArgValidator::Link => Some(EnabledValidator::Link),
            ArgValidator::Schema => Some(EnabledValidator::Schema),
            ArgValidator::Value => Some(EnabledValidator::Value),
        }
    }
}

impl vstd::std_specs::convert::FromSpecImpl<ArgValidator> for Option<EnabledValidator> {
    open spec fn obeys_from_spec() -> bool {
        true
    }

    open spec fn from_spec(rule: ArgValidator) -> Option<EnabledValidator> {
        rule.enabled()
    }
}

/// Every validator, in the order in which they run.
pub open spec fn all_validators() -> Seq<EnabledValidator> {
    seq![
        EnabledValidator::Expectation,
        EnabledValidator::Link,
        EnabledValidator::Schema,
        EnabledValidator::Value,
    ]
}

/// The validators that the first `count` of `rules` name, in order.
pub open spec fn named_by_first(rules: Seq<ArgValidator>, count: nat) -> Seq<EnabledValidator>
    decreases count,
{
    if count == 0 {
        Seq::empty()
    } else {
        let earlier = named_by_first(rules, (count - 1) as nat);
        match rules[count - 1].enabled() {
            Some(validator) => earlier.push(validator),
            None => earlier,
        }
    }
}

/// The validators that a choice of rules enables: all of them where `All` is
/// among the rules, else those that the rules name, in order and as often as
/// they are named.
pub open spec fn normalized(rules: Seq<ArgValidator>) -> Seq<EnabledValidator> {
    if rules.contains(ArgValidator::All) {
        all_validators()
    } else {
        named_by_first(rules, rules.len())
    }
}

/// Turns the rules of the command line into the validators to run.
pub fn normalize_rules(rules: Vec<ArgValidator>) -> (enabled: Vec<EnabledValidator>)
    ensures
        enabled@ == normalized(rules@),
{
    let mut enabled: Vec<EnabledValidator> = Vec::new();
    let mut index: usize = 0;
    while index < rules.len()
        invariant
            index <= rules.len(),
            forall|i: int| 0 <= i < index ==> rules@[i] != ArgValidator::All,
            enabled@ == named_by_first(rules@, index as nat),
        decreases rules.len() - index,
    {
        match Option::<EnabledValidator>::from(rules[index]) {
            Some(validator) => {
                enabled.push(validator);
            },
            None => {
                let mut all: Vec<EnabledValidator> = Vec::new();
                all.push(EnabledValidator::Expectation);
                all.push(EnabledValidator::Link);
                all.push(EnabledValidator::Schema);
                all.push(EnabledValidator::Value);
                assert(rules@[index as int] == ArgValidator::All);
                assert(all@ =~= all_validators());
                return all;
            },
        }
        index += 1;
    }
    enabled
}

/// `std::path::Path::is_dir`: whether `path` names a directory at the time of
/// the call. Nothing is promised of the answer.
#[verifier::external_body]
fn path_is_dir(path: &str) -> bool {
    Path::new(path).is_dir()
}

/// Whether the argument of the command line names a directory. No argument
/// names none.
pub fn is_directory(arg_path: Option<String>) -> (directory: bool)
    ensures
        arg_path is None ==> !directory,
{
    match arg_path {
        Some(path) => path_is_dir(path.as_str()),
        None => false,
    }
}

/// Whether a file with this extension is a check: `yml` and `yaml` are.
pub fn is_check_extension(extension: Option<&str>) -> (check: bool)
    ensures
        check == (extension matches Some(e) && (e@ == "yml"@ || e@ == "yaml"@)),
{
    match extension {
        Some(e) => str_eq(e, "yml") || str_eq(e, "yaml"),
        None => false,
    }
}

fn str_eq(left: &str, right: &str) -> (equal: bool)
    ensures
        equal == (left@ == right@),
{
    let left = left.to_owned();
    let right = right.to_owned();
    left == right
}

/// The number of diagnostics in the results of a sweep.
pub open spec fn diagnostics_in(results: Seq<Result<(), Vec<ValidationDiagnostic>>>) -> nat
    decreases results.len(),
{
    if results.len() == 0 {
        0
    } else {
        diagnostics_in(results.drop_last()) + result_findings(results.last()).len()
    }
}

/// Whether a sweep succeeded: no file failed to parse and no validation
/// failed.
pub open spec fn sweep_succeeded(
    parsing_errors: Seq<String>,
    validation_results: Seq<Result<(), Vec<ValidationDiagnostic>>>,
) -> bool {
    &&& parsing_errors.len() == 0
    &&& forall|i: int| 0 <= i < validation_results.len() ==> validation_results[i] is Ok
}

/// The exit code of a sweep over the checks of a directory: 0 where it
/// succeeded, else 1.
pub fn exit_code(
    parsing_errors: &Vec<String>,
    validation_results: &Vec<Result<(), Vec<ValidationDiagnostic>>>,
) -> (code: i32)
    ensures
        code == if sweep_succeeded(parsing_errors@, validation_results@) {
            0i32
        } else {
            1i32
        },
{
    if parsing_errors.len() > 0 {
        return 1;
    }
    let mut index: usize = 0;
    while index < validation_results.len()
        invariant
            index <= validation_results.len(),
            forall|i: int| 0 <= i < index ==> validation_results@[i] is Ok,
        decreases validation_results.len() - index,
    {
        if validation_results[index].is_err() {
            return 1;
        }
        index += 1;
    }
    0
}

/// The exit code of validating a single check: 0 where the validation
/// succeeded, else 1.
pub fn exit_code_of(validation_result: &Result<(), Vec<ValidationDiagnostic>>) -> (code: i32)
    ensures
        code == if validation_result is Ok {
            0i32
        } else {
            1i32
        },
{
    match validation_result {
        Ok(_) => 0,
        Err(_) => 1,
    }
}

proof fn no_diagnostics_means_all_ok(results: Seq<Result<(), Vec<ValidationDiagnostic>>>)
    requires
        forall|i: int|
            0 <= i < results.len() ==> (results[i] is Err ==> result_findings(results[i]).len() > 0),
    ensures
        diagnostics_in(results) == 0 <==> forall|i: int| 0 <= i < results.len() ==> results[i] is Ok,
    decreases results.len(),
{
    if results.len() > 0 {
        let earlier = results.drop_last();
        no_diagnostics_means_all_ok(earlier);
        if diagnostics_in(results) == 0 {
            assert forall|i: int| 0 <= i < results.len() implies results[i] is Ok by {
                if i < results.len() - 1 {
                    assert(earlier[i] is Ok);
                }
            }
        } else if forall|i: int| 0 <= i < results.len() ==> results[i] is Ok {
            assert forall|i: int| 0 <= i < earlier.len() implies earlier[i] is Ok by {
                assert(results[i] is Ok);
            }
            assert(results.last() is Ok);
        }
    }
}

/// A sweep ends with 0 exactly when no file failed to parse and not a single
/// diagnostic was produced. This holds of validation results as validators
/// give them: a failed validation carries at least one diagnostic.
pub proof fn sweep_succeeds_iff_nothing_was_found(
    parsing_errors: Seq<String>,
    validation_results: Seq<Result<(), Vec<ValidationDiagnostic>>>,
)
    requires
        forall|i: int|
            0 <= i < validation_results.len() ==> (validation_results[i] is Err ==> result_findings(
                validation_results[i],
            ).len() > 0),
    ensures
        sweep_succeeded(parsing_errors, validation_results) <==> parsing_errors.len() == 0
            && diagnostics_in(validation_results) == 0,
{
    no_diagnostics_means_all_ok(validation_results);
}

} // verus!
