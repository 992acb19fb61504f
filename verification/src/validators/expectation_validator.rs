//! Validation of the `expectations` of a check definition.
//!
//! Every expectation is looked at on its own: what one of them reports does
//! not depend on the others. All findings of this validator are critical and
//! point at the expectation they are about.

use crate::dsl::types::{failure_findings, failures, findings, report, report_all};
use crate::dsl::types::{Finding, ValidationDiagnostic, Validator};
use crate::json::{elements_under, has_member, member, text_of, text_under};
use crate::script::{compile, compile_outcome, outcome_view, script_error, StatementKind};
use crate::text::{contains, contains_text, decimal, decimal_string};
use rhai::Engine;
use serde_json::Value;
use vstd::prelude::*;

verus! {

/// Validates expectations with the help of a script engine.
pub struct ExpectationValidator<'a> {
    pub engine: &'a Engine,
}

/// The JSON pointer of the expectation at `index`.
pub open spec fn expectation_path(index: nat) -> Seq<char> {
    "/expectations/"@ + decimal(index)
}

/// The critical finding with `message` about the expectation at `index`.
pub open spec fn expectation_finding(check_id: Seq<char>, index: nat, message: Seq<char>) -> Finding {
    Finding::Critical { check_id, message, instance_path: expectation_path(index) }
}

/// One critical finding per message, all about the expectation at `index`.
pub open spec fn expectation_findings(
    check_id: Seq<char>,
    index: nat,
    messages: Seq<Seq<char>>,
) -> Seq<Finding> {
    messages.map_values(|message: Seq<char>| expectation_finding(check_id, index, message))
}

/// A text wrapped as one template literal of the scripting language.
pub open spec fn template_of(text: Seq<char>) -> Seq<char> {
    "`"@ + text + "`"@
}

/// What is wrong with a message template, given the outcome of compiling it
/// as a template literal. `None` means the template is accepted.
///
/// A template has to compile to exactly one statement, and that statement has
/// to be an expression that is a string: a constant one, or an interpolated one
/// where interpolation is allowed.
pub open spec fn string_expression_fault(
    outcome: Result<Seq<StatementKind>, Seq<char>>,
    allow_interpolated_strings: bool,
) -> Option<Seq<char>> {
    match outcome {
        Err(text) => Some(text),
        Ok(kinds) => if kinds.len() > 1 {
            Some("Too many statements"@)
        } else if kinds.len() == 0 {
            Some("Field has to be an expression"@)
        } else {
            match kinds[0] {
                StatementKind::StringLiteral => None,
                StatementKind::InterpolatedString => if allow_interpolated_strings {
                    None
                } else {
                    Some("String interpolation is not allowed here"@)
                },
                StatementKind::OtherExpression => Some("Field has to be a string"@),
                StatementKind::NotExpression => Some("Field has to be an expression"@),
            }
        },
    }
}

/// What is wrong with the body of an `expect_enum` expression: it has to hold
/// the quoted outcome `"passing"` and the quoted outcome `"warning"` somewhere
/// in its text.
pub open spec fn enum_content_faults(expression: Seq<char>) -> Seq<Seq<char>> {
    let passing = if contains_text(expression, "\"passing\""@) {
        Seq::<Seq<char>>::empty()
    } else {
        seq!["passing return value not found"@]
    };
    let warning = if contains_text(expression, "\"warning\""@) {
        Seq::<Seq<char>>::empty()
    } else {
        seq![
            "warning return value not found. Consider using `expect` expression if a warning return is not needed"@,
        ]
    };
    passing + warning
}

/// The expression of an expectation: the text under `expect`, else under
/// `expect_same`, else under `expect_enum`, whichever member comes first in
/// that order. It is empty where none of them is there, and where the member is
/// not a string.
pub open spec fn expectation_expression(expectation: Value) -> Seq<char> {
    if has_member(expectation, "expect"@) {
        text_under(expectation, "expect"@)
    } else if has_member(expectation, "expect_same"@) {
        text_under(expectation, "expect_same"@)
    } else if has_member(expectation, "expect_enum"@) {
        text_under(expectation, "expect_enum"@)
    } else {
        Seq::empty()
    }
}

/// A sequence of one message, or of none.
pub open spec fn fault_list(fault: Option<Seq<char>>) -> Seq<Seq<char>> {
    match fault {
        Some(message) => seq![message],
        None => Seq::empty(),
    }
}

/// What the expression itself contributes: the error text where it does not
/// compile.
pub open spec fn expression_faults(engine: Engine, expectation: Value) -> Seq<Seq<char>> {
    fault_list(script_error(engine, expectation_expression(expectation)))
}

/// What `failure_message` contributes. Interpolation is allowed for `expect`
/// and `expect_enum` expectations only.
pub open spec fn failure_message_faults(engine: Engine, expectation: Value) -> Seq<Seq<char>> {
    if has_member(expectation, "failure_message"@) {
        fault_list(
            string_expression_fault(
                compile_outcome(engine, template_of(text_under(expectation, "failure_message"@))),
                has_member(expectation, "expect"@) || has_member(expectation, "expect_enum"@),
            ),
        )
    } else {
        Seq::empty()
    }
}

/// What `warning_message` contributes. It may only stand on an `expect_enum`
/// expectation; elsewhere its mere presence is the fault, whatever it holds.
pub open spec fn warning_message_faults(engine: Engine, expectation: Value) -> Seq<Seq<char>> {
    if !has_member(expectation, "warning_message"@) {
        Seq::empty()
    } else if !has_member(expectation, "expect_enum"@) {
        seq!["warning_message is only available for expect_enum expectations"@]
    } else {
        fault_list(
            string_expression_fault(
                compile_outcome(engine, template_of(text_under(expectation, "warning_message"@))),
                true,
            ),
        )
    }
}

/// What the outcome literals contribute, for an `expect_enum` expectation.
pub open spec fn enum_faults(expectation: Value) -> Seq<Seq<char>> {
    if has_member(expectation, "expect_enum"@) {
        enum_content_faults(expectation_expression(expectation))
    } else {
        Seq::empty()
    }
}

/// Everything that is wrong with one expectation, in the order in which it is
/// reported.
pub open spec fn expectation_faults(engine: Engine, expectation: Value) -> Seq<Seq<char>> {
    expression_faults(engine, expectation) + failure_message_faults(engine, expectation)
        + warning_message_faults(engine, expectation) + enum_faults(expectation)
}

/// The findings about the first `count` of `expectations`.
pub open spec fn findings_of_first(
    engine: Engine,
    check_id: Seq<char>,
    expectations: Seq<Value>,
    count: nat,
) -> Seq<Finding>
    decreases count,
{
    if count == 0 {
        Seq::empty()
    } else {
        let index = (count - 1) as nat;
        findings_of_first(engine, check_id, expectations, index) + expectation_findings(
            check_id,
            index,
            expectation_faults(engine, expectations[index as int]),
        )
    }
}

/// The findings about the expectations of `document`.
pub open spec fn expectations_findings(engine: Engine, check_id: Seq<char>, document: Value) -> Seq<
    Finding,
> {
    let expectations = elements_under(document, "expectations"@);
    findings_of_first(engine, check_id, expectations, expectations.len())
}

fn path_of(index: usize) -> (path: String)
    ensures
        path@ == expectation_path(index as nat),
{
    let mut path = "/expectations/".to_owned();
    let numeral = decimal_string(index);
    path.append(numeral.as_str());
    path
}

fn critical(check_id: &str, index: usize, message: String) -> (diagnostic: ValidationDiagnostic)
    ensures
        diagnostic@ == expectation_finding(check_id@, index as nat, message@),
{
    ValidationDiagnostic::critical(check_id, message, path_of(index))
}

/// Judges a message template by the outcome of compiling it as a template
/// literal.
pub fn judge_string_expression(
    outcome: Result<Vec<StatementKind>, String>,
    check_id: &str,
    index: usize,
    allow_interpolated_strings: bool,
) -> (verdict: Result<(), ValidationDiagnostic>)
    ensures
        match string_expression_fault(outcome_view(outcome), allow_interpolated_strings) {
            None => verdict is Ok,
            Some(message) => verdict matches Err(d) && d@ == expectation_finding(
                check_id@,
                index as nat,
                message,
            ),
        },
{
    match outcome {
        Ok(kinds) => {
            if kinds.len() > 1 {
                return Err(critical(check_id, index, "Too many statements".to_owned()));
            }
            if kinds.len() == 0 {
                return Err(critical(check_id, index, "Field has to be an expression".to_owned()));
            }
            match kinds[0] {
                StatementKind::StringLiteral => Ok(()),
                StatementKind::InterpolatedString => {
                    if !allow_interpolated_strings {
                        Err(
                            critical(
                                check_id,
                                index,
                                "String interpolation is not allowed here".to_owned(),
                            ),
                        )
                    } else {
                        Ok(())
                    }
                },
                StatementKind::OtherExpression => Err(
                    critical(check_id, index, "Field has to be a string".to_owned()),
                ),
                StatementKind::NotExpression => Err(
                    critical(check_id, index, "Field has to be an expression".to_owned()),
                ),
            }
        },
        Err(text) => Err(critical(check_id, index, text)),
    }
}

/// Validates a message template of the expectation at `index`: compiles
/// `expression` as one template literal and judges the outcome.
pub fn validate_string_expression(
    expression: &str,
    engine: &Engine,
    check_id: &str,
    index: usize,
    allow_interpolated_strings: bool,
) -> (verdict: Result<(), ValidationDiagnostic>)
    ensures
        match string_expression_fault(
            compile_outcome(*engine, template_of(expression@)),
            allow_interpolated_strings,
        ) {
            None => verdict is Ok,
            Some(message) => verdict matches Err(d) && d@ == expectation_finding(
                check_id@,
                index as nat,
                message,
            ),
        },
{
    let mut template = "`".to_owned();
    template.append(expression);
    template.append("`");
    let outcome = compile(engine, template.as_str());
    judge_string_expression(outcome, check_id, index, allow_interpolated_strings)
}

/// The outcomes of a list as plain values.
pub open spec fn outcome_findings(outcomes: Seq<Result<(), ValidationDiagnostic>>) -> Seq<
    Result<(), Finding>,
> {
    outcomes.map_values(
        |outcome: Result<(), ValidationDiagnostic>|
            match outcome {
                Ok(_) => Ok(()),
                Err(d) => Err(d@),
            },
    )
}

/// Looks for the outcome literals in the body of an `expect_enum` expression.
/// The search is textual: a literal in a comment counts as well.
pub fn validate_expect_enum_content(expression: &str, check_id: &str, index: usize) -> (outcomes:
    Vec<Result<(), ValidationDiagnostic>>)
    ensures
        outcome_findings(outcomes@) == enum_content_faults(expression@).map_values(
            |message: Seq<char>| Err::<(), Finding>(expectation_finding(check_id@, index as nat, message)),
        ),
        failure_findings(outcomes@) == expectation_findings(
            check_id@,
            index as nat,
            enum_content_faults(expression@),
        ),
{
    let mut outcomes: Vec<Result<(), ValidationDiagnostic>> = Vec::new();
    assert(failure_findings(outcomes@) =~= Seq::<Finding>::empty());
    if !contains(expression, "\"passing\"") {
        fail(
            &mut outcomes,
            critical(check_id, index, "passing return value not found".to_owned()),
        );
    }
    if !contains(expression, "\"warning\"") {
        fail(
            &mut outcomes,
            critical(
                check_id,
                index,
                "warning return value not found. Consider using `expect` expression if a warning return is not needed".to_owned(),
            ),
        );
    }
    assert(outcome_findings(outcomes@) =~= enum_content_faults(expression@).map_values(
        |message: Seq<char>| Err::<(), Finding>(expectation_finding(check_id@, index as nat, message)),
    ));
    assert(failure_findings(outcomes@) =~= expectation_findings(
        check_id@,
        index as nat,
        enum_content_faults(expression@),
    ));
    outcomes
}

fn fail(outcomes: &mut Vec<Result<(), ValidationDiagnostic>>, diagnostic: ValidationDiagnostic)
    ensures
        outcome_findings(final(outcomes)@) == outcome_findings(old(outcomes)@).push(
            Err(diagnostic@),
        ),
        failure_findings(final(outcomes)@) == failure_findings(old(outcomes)@).push(diagnostic@),
{
    outcomes.push(Err(diagnostic));
    assert(outcomes@.drop_last() =~= old(outcomes)@);
    assert(outcome_findings(outcomes@) =~= outcome_findings(old(outcomes)@).push(
        Err(diagnostic@),
    ));
}

fn validate_expectation(expectation: &Value, check_id: &str, engine: &Engine, index: usize) -> (diagnostics:
    Vec<ValidationDiagnostic>)
    ensures
        findings(diagnostics@) == expectation_findings(
            check_id@,
            index as nat,
            expectation_faults(*engine, *expectation),
        ),
{
    let expect = member(expectation, "expect");
    let expect_same = member(expectation, "expect_same");
    let expect_enum = member(expectation, "expect_enum");

    let is_expect = expect.is_some();
    let is_expect_enum = expect_enum.is_some();

    let expression: &str = match expect {
        Some(value) => text_of(value),
        None => match expect_same {
            Some(value) => text_of(value),
            None => match expect_enum {
                Some(value) => text_of(value),
                None => {
                    proof {
                        reveal_strlit("");
                    }
                    assert(""@ =~= Seq::<char>::empty());
                    ""
                },
            },
        },
    };
    assert(expression@ == expectation_expression(*expectation));

    let mut diagnostics: Vec<ValidationDiagnostic> = Vec::new();
    let ghost faults = expression_faults(*engine, *expectation);

    match compile(engine, expression) {
        Ok(_) => {},
        Err(text) => {
            report(&mut diagnostics, critical(check_id, index, text));
        },
    }
    assert(findings(diagnostics@) =~= expectation_findings(check_id@, index as nat, faults));

    match member(expectation, "failure_message") {
        Some(message) => {
            match validate_string_expression(
                text_of(message),
                engine,
                check_id,
                index,
                is_expect || is_expect_enum,
            ) {
                Ok(_) => {},
                Err(diagnostic) => {
                    report(&mut diagnostics, diagnostic);
                },
            }
        },
        None => {},
    }
    proof {
        faults = faults + failure_message_faults(*engine, *expectation);
    }
    assert(findings(diagnostics@) =~= expectation_findings(check_id@, index as nat, faults));

    match member(expectation, "warning_message") {
        Some(message) => {
            if !is_expect_enum {
                report(
                    &mut diagnostics,
                    critical(
                        check_id,
                        index,
                        "warning_message is only available for expect_enum expectations".to_owned(),
                    ),
                );
            } else {
                match validate_string_expression(text_of(message), engine, check_id, index, true) {
                    Ok(_) => {},
                    Err(diagnostic) => {
                        report(&mut diagnostics, diagnostic);
                    },
                }
            }
        },
        None => {},
    }
    proof {
        faults = faults + warning_message_faults(*engine, *expectation);
    }
    assert(findings(diagnostics@) =~= expectation_findings(check_id@, index as nat, faults));

    if is_expect_enum {
        let outcomes = validate_expect_enum_content(expression, check_id, index);
        report_all(&mut diagnostics, failures(outcomes));
    }
    proof {
        faults = faults + enum_faults(*expectation);
    }
    assert(findings(diagnostics@) =~= expectation_findings(check_id@, index as nat, faults));
    diagnostics
}

/// Validates every element of `expectations`, in order. Where the document has
/// no such array there is nothing to report.
pub fn validate_expectations(json_check: &Value, check_id: &str, engine: &Engine) -> (diagnostics:
    Vec<ValidationDiagnostic>)
    ensures
        findings(diagnostics@) == expectations_findings(*engine, check_id@, *json_check),
{
    let mut diagnostics: Vec<ValidationDiagnostic> = Vec::new();
    let expectations = match member(json_check, "expectations") {
        Some(found) => found.as_array(),
        None => None,
    };
    match expectations {
        Some(expectations) => {
            let mut index: usize = 0;
            while index < expectations.len()
                invariant
                    index <= expectations.len(),
                    expectations@ == elements_under(*json_check, "expectations"@),
                    findings(diagnostics@) == findings_of_first(
                        *engine,
                        check_id@,
                        expectations@,
                        index as nat,
                    ),
                decreases expectations.len() - index,
            {
                let more = validate_expectation(&expectations[index], check_id, engine, index);
                report_all(&mut diagnostics, more);
                index += 1;
            }
        },
        None => {},
    }
    diagnostics
}

impl<'a> Validator for ExpectationValidator<'a> {
    open spec fn findings_in(&self, document: Value, check_id: Seq<char>) -> Seq<Finding> {
        expectations_findings(*self.engine, check_id, document)
    }

    fn validate(&self, json_check: &Value, check_id: &str) -> (diagnostics: Vec<
        ValidationDiagnostic,
    >) {
        validate_expectations(json_check, check_id, self.engine)
    }
}

/// An expression that does not compile is reported with the compiler's own
/// words, and by itself with nothing else: an expectation that has neither
/// message and is no `expect_enum` gets exactly that one finding.
pub proof fn broken_expression_is_reported_once(engine: Engine, expectation: Value, text: Seq<char>)
    requires
        script_error(engine, expectation_expression(expectation)) == Some(text),
        !has_member(expectation, "failure_message"@),
        !has_member(expectation, "warning_message"@),
        !has_member(expectation, "expect_enum"@),
    ensures
        expectation_faults(engine, expectation) == seq![text],
{
    assert(expectation_faults(engine, expectation) =~= seq![text]);
}

/// Expectations are judged one by one: what is reported about the first
/// `count` expectations is the same in any two lists that agree on them,
/// whatever else the lists hold.
pub proof fn expectations_are_judged_alone(
    engine: Engine,
    check_id: Seq<char>,
    left: Seq<Value>,
    right: Seq<Value>,
    count: nat,
)
    requires
        count <= left.len(),
        count <= right.len(),
        forall|i: int| 0 <= i < count ==> left[i] == right[i],
    ensures
        findings_of_first(engine, check_id, left, count) == findings_of_first(
            engine,
            check_id,
            right,
            count,
        ),
    decreases count,
{
    if count > 0 {
        expectations_are_judged_alone(engine, check_id, left, right, (count - 1) as nat);
    }
}

/// The outcome literals are looked for separately. A missing `"passing"` is
/// reported, a missing `"warning"` is reported, and where both are missing
/// both are reported, `"passing"` first.
pub proof fn outcome_literals_are_reported_separately(expression: Seq<char>)
    ensures
        enum_content_faults(expression) == if contains_text(expression, "\"passing\""@) {
            if contains_text(expression, "\"warning\""@) {
                Seq::<Seq<char>>::empty()
            } else {
                seq![
                    "warning return value not found. Consider using `expect` expression if a warning return is not needed"@,
                ]
            }
        } else {
            if contains_text(expression, "\"warning\""@) {
                seq!["passing return value not found"@]
            } else {
                seq![
                    "passing return value not found"@,
                    "warning return value not found. Consider using `expect` expression if a warning return is not needed"@,
                ]
            }
        },
{
    assert(enum_content_faults(expression) =~= if contains_text(expression, "\"passing\""@) {
        if contains_text(expression, "\"warning\""@) {
            Seq::<Seq<char>>::empty()
        } else {
            seq![
                "warning return value not found. Consider using `expect` expression if a warning return is not needed"@,
            ]
        }
    } else {
        if contains_text(expression, "\"warning\""@) {
            seq!["passing return value not found"@]
        } else {
            seq![
                "passing return value not found"@,
                "warning return value not found. Consider using `expect` expression if a warning return is not needed"@,
            ]
        }
    });
}

/// A `warning_message` on an expectation that is no `expect_enum` is reported
/// exactly once, whatever the message holds: it is not even compiled.
pub proof fn misplaced_warning_message_is_reported_once(engine: Engine, expectation: Value)
    requires
        has_member(expectation, "warning_message"@),
        !has_member(expectation, "expect_enum"@),
    ensures
        warning_message_faults(engine, expectation) == seq![
            "warning_message is only available for expect_enum expectations"@,
        ],
        expectation_faults(engine, expectation) == expression_faults(engine, expectation)
            + failure_message_faults(engine, expectation) + seq![
            "warning_message is only available for expect_enum expectations"@,
        ],
{
    assert(expectation_faults(engine, expectation) =~= expression_faults(engine, expectation)
        + failure_message_faults(engine, expectation) + seq![
        "warning_message is only available for expect_enum expectations"@,
    ]);
}

} // verus!
