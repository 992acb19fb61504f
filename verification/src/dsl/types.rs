//! The typed projection of a check definition and the diagnostics that
//! validators report.

use serde_json::Value;
use std::collections::HashMap;
use vstd::prelude::*;

verus! {

/// A finding of a validator. `Critical` findings make a check unusable,
/// `Warning` findings do not. Each names the check it is about and the place in
/// the document as a JSON pointer.
#[derive(Debug)]
pub enum ValidationDiagnostic {
    Warning { check_id: String, message: String, instance_path: String },
    Critical { check_id: String, message: String, instance_path: String },
}

/// What a diagnostic says, as plain sequences of characters.
pub enum Finding {
    Warning { check_id: Seq<char>, message: Seq<char>, instance_path: Seq<char> },
    Critical { check_id: Seq<char>, message: Seq<char>, instance_path: Seq<char> },
}

impl View for ValidationDiagnostic {
    type V = Finding;

    open spec fn view(&self) -> Finding {
        match *self {
            ValidationDiagnostic::Warning { check_id, message, instance_path } => Finding::Warning {
                check_id: check_id@,
                message: message@,
                instance_path: instance_path@,
            },
            ValidationDiagnostic::Critical {
                check_id,
                message,
                instance_path,
            } => Finding::Critical {
                check_id: check_id@,
                message: message@,
                instance_path: instance_path@,
            },
        }
    }
}

impl ValidationDiagnostic {
    /// A `Warning` about `check_id` at `instance_path`.
    pub fn warning(check_id: &str, message: String, instance_path: String) -> (d: Self)
        ensures
            d@ == (Finding::Warning {
                check_id: check_id@,
                message: message@,
                instance_path: instance_path@,
            }),
    {
        ValidationDiagnostic::Warning { check_id: check_id.to_owned(), message, instance_path }
    }

    /// A `Critical` about `check_id` at `instance_path`.
    pub fn critical(check_id: &str, message: String, instance_path: String) -> (d: Self)
        ensures
            d@ == (Finding::Critical {
                check_id: check_id@,
                message: message@,
                instance_path: instance_path@,
            }),
    {
        ValidationDiagnostic::Critical { check_id: check_id.to_owned(), message, instance_path }
    }
}

/// The findings that a list of diagnostics holds, in order.
pub open spec fn findings(diagnostics: Seq<ValidationDiagnostic>) -> Seq<Finding> {
    diagnostics.map_values(|d: ValidationDiagnostic| d@)
}

/// The findings among a list of outcomes: what each failed outcome reports, in
/// order. Successful outcomes report nothing.
pub open spec fn failure_findings(outcomes: Seq<Result<(), ValidationDiagnostic>>) -> Seq<Finding>
    decreases outcomes.len(),
{
    if outcomes.len() == 0 {
        Seq::empty()
    } else {
        let earlier = failure_findings(outcomes.drop_last());
        match outcomes.last() {
            Ok(_) => earlier,
            Err(d) => earlier.push(d@),
        }
    }
}

/// What a validation result reports: nothing where it is `Ok`, the findings of
/// its diagnostics where it is `Err`.
pub open spec fn result_findings(result: Result<(), Vec<ValidationDiagnostic>>) -> Seq<Finding> {
    match result {
        Ok(_) => Seq::empty(),
        Err(diagnostics) => findings(diagnostics@),
    }
}

/// Whether `result` is the validation result for `expected` findings: `Ok`
/// where there are none, else `Err` with exactly those findings, in order.
pub open spec fn reports(result: Result<(), Vec<ValidationDiagnostic>>, expected: Seq<Finding>) -> bool {
    &&& result is Ok <==> expected.len() == 0
    &&& result_findings(result) == expected
}

/// Turns a list of diagnostics into a validation result: `Ok` for the empty
/// list, `Err` with the list otherwise.
pub fn into_result(diagnostics: Vec<ValidationDiagnostic>) -> (result: Result<
    (),
    Vec<ValidationDiagnostic>,
>)
    ensures
        reports(result, findings(diagnostics@)),
{
    if diagnostics.len() == 0 {
        assert(findings(diagnostics@) =~= Seq::<Finding>::empty());
        Ok(())
    } else {
        Err(diagnostics)
    }
}

/// Adds one diagnostic to the end of a list.
pub fn report(diagnostics: &mut Vec<ValidationDiagnostic>, diagnostic: ValidationDiagnostic)
    ensures
        findings(final(diagnostics)@) == findings(old(diagnostics)@).push(diagnostic@),
{
    diagnostics.push(diagnostic);
    assert(findings(diagnostics@) =~= findings(old(diagnostics)@).push(diagnostic@));
}

/// Moves all diagnostics of `more` to the end of a list.
pub fn report_all(diagnostics: &mut Vec<ValidationDiagnostic>, more: Vec<ValidationDiagnostic>)
    ensures
        findings(final(diagnostics)@) == findings(old(diagnostics)@) + findings(more@),
{
    let ghost added = more@;
    let mut more = more;
    diagnostics.append(&mut more);
    assert(findings(diagnostics@) =~= findings(old(diagnostics)@) + findings(added));
}

/// Keeps the diagnostics of the failed outcomes, in order.
pub fn failures(outcomes: Vec<Result<(), ValidationDiagnostic>>) -> (diagnostics: Vec<
    ValidationDiagnostic,
>)
    ensures
        findings(diagnostics@) == failure_findings(outcomes@),
{
    let mut diagnostics: Vec<ValidationDiagnostic> = Vec::new();
    let ghost all = outcomes@;
    for outcome in iter: outcomes
        invariant
            iter.seq() == all,
            findings(diagnostics@) == failure_findings(all.take(iter.index() as int)),
    {
        proof {
            let upto = all.take(iter.index() + 1);
            assert(upto.drop_last() =~= all.take(iter.index() as int));
            assert(upto.last() == outcome);
        }
        match outcome {
            Ok(_) => {},
            Err(d) => {
                report(&mut diagnostics, d);
            },
        }
    }
    assert(all.take(all.len() as int) =~= all);
    diagnostics
}

/// A validator reads a check definition and reports its findings about it.
/// What it reports is a function of what it is given: it keeps no state from
/// one call to the next.
pub trait Validator {
    /// What this validator finds in `document`, in the order in which it
    /// reports it.
    spec fn findings_in(&self, document: Value, check_id: Seq<char>) -> Seq<Finding>;

    /// Reports the findings about `json_check`, each attributed to `check_id`.
    fn validate(&self, json_check: &Value, check_id: &str) -> (diagnostics: Vec<
        ValidationDiagnostic,
    >)
        ensures
            findings(diagnostics@) == self.findings_in(*json_check, check_id@),
    ;
}

/// An optional text as an optional sequence of characters.
pub open spec fn optional_text(text: Option<String>) -> Option<Seq<char>> {
    match text {
        Some(t) => Some(t@),
        None => None,
    }
}

/// A declared fact: the name under which expectations refer to it, the
/// gatherer that provides it and the gatherer's argument.
#[derive(Debug)]
pub struct FactDeclaration {
    pub name: String,
    pub gatherer: String,
    pub argument: Option<String>,
}

/// A fact declaration as plain values.
pub struct FactDeclarationView {
    pub name: Seq<char>,
    pub gatherer: Seq<char>,
    pub argument: Option<Seq<char>>,
}

impl View for FactDeclaration {
    type V = FactDeclarationView;

    open spec fn view(&self) -> FactDeclarationView {
        FactDeclarationView {
            name: self.name@,
            gatherer: self.gatherer@,
            argument: optional_text(self.argument),
        }
    }
}

/// A gathered fact.
#[derive(Debug)]
pub struct Fact {
    pub name: String,
    pub content: String,
}

/// A named expectation. One of `expect`, `expect_same` and `expect_enum` holds
/// its expression.
#[derive(Debug)]
pub struct Expectation {
    pub name: String,
    pub expect: Option<String>,
    pub expect_same: Option<String>,
    pub expect_enum: Option<String>,
    pub failure_message: Option<String>,
    pub warning_message: Option<String>,
}

/// An expectation as plain values.
pub struct ExpectationView {
    pub name: Seq<char>,
    pub expect: Option<Seq<char>>,
    pub expect_same: Option<Seq<char>>,
    pub expect_enum: Option<Seq<char>>,
    pub failure_message: Option<Seq<char>>,
    pub warning_message: Option<Seq<char>>,
}

impl View for Expectation {
    type V = ExpectationView;

    open spec fn view(&self) -> ExpectationView {
        ExpectationView {
            name: self.name@,
            expect: optional_text(self.expect),
            expect_same: optional_text(self.expect_same),
            expect_enum: optional_text(self.expect_enum),
            failure_message: optional_text(self.failure_message),
            warning_message: optional_text(self.warning_message),
        }
    }
}

/// The type a predicate evaluates to.
#[derive(Debug)]
pub enum Predicate {
    String,
    Bool,
    U64,
}

/// A failure to decode a check, attributed to the check's id.
#[derive(Debug)]
pub struct ParsingError {
    pub check_id: String,
    pub error: String,
}

/// A parsing error as plain values.
pub struct ParsingErrorView {
    pub check_id: Seq<char>,
    pub error: Seq<char>,
}

impl View for ParsingError {
    type V = ParsingErrorView;

    open spec fn view(&self) -> ParsingErrorView {
        ParsingErrorView { check_id: self.check_id@, error: self.error@ }
    }
}

/// The typed projection of a check definition.
#[derive(Debug)]
pub struct Check {
    pub id: String,
    pub name: String,
    pub group: String,
    pub metadata: Option<HashMap<String, Value>>,
    pub when: Option<String>,
    pub description: String,
    pub remediation: String,
    pub facts: Vec<FactDeclaration>,
    pub expectations: Vec<Expectation>,
}

/// A check as plain values. The metadata stay as they are.
pub struct CheckView {
    pub id: Seq<char>,
    pub name: Seq<char>,
    pub group: Seq<char>,
    pub metadata: Option<HashMap<String, Value>>,
    pub when: Option<Seq<char>>,
    pub description: Seq<char>,
    pub remediation: Seq<char>,
    pub facts: Seq<FactDeclarationView>,
    pub expectations: Seq<ExpectationView>,
}

impl View for Check {
    type V = CheckView;

    open spec fn view(&self) -> CheckView {
        CheckView {
            id: self.id@,
            name: self.name@,
            group: self.group@,
            metadata: self.metadata,
            when: optional_text(self.when),
            description: self.description@,
            remediation: self.remediation@,
            facts: self.facts@.map_values(|fact: FactDeclaration| fact@),
            expectations: self.expectations@.map_values(|expectation: Expectation| expectation@),
        }
    }
}

} // verus!
