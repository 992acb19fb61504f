//! The result of linting a check for a host that embeds this library: a flag
//! and a list of messages for people to read.

use crate::dsl::types::{Finding, ValidationDiagnostic};
use vstd::prelude::*;

verus! {

/// What an embedding host is told about a check.
#[derive(Debug)]
pub struct ValidationResult {
    pub result: bool,
    pub messages: Vec<String>,
}

/// How a diagnostic reads as one message: what it says, then where.
pub open spec fn message_of(diagnostic: ValidationDiagnostic) -> Seq<char> {
    match diagnostic@ {
        Finding::Warning { message, instance_path, .. } => message + " - path: "@ + instance_path,
        Finding::Critical { message, instance_path, .. } => message + " - path: "@ + instance_path,
    }
}

/// The messages of a validation: one per diagnostic, in order, or the single
/// message `Ok!` where the validation succeeded.
pub open spec fn messages_of(validation: Result<(), Vec<ValidationDiagnostic>>) -> Seq<Seq<char>> {
    match validation {
        Ok(_) => seq!["Ok!"@],
        Err(diagnostics) => diagnostics@.map_values(|d: ValidationDiagnostic| message_of(d)),
    }
}

/// The texts of a list of messages.
pub open spec fn texts(messages: Seq<String>) -> Seq<Seq<char>> {
    messages.map_values(|m: String| m@)
}

fn flatten(diagnostic: &ValidationDiagnostic) -> (message: String)
    ensures
        message@ == message_of(*diagnostic),
{
    match diagnostic {
        ValidationDiagnostic::Warning { check_id: _, message, instance_path } => {
            let mut text = message.clone();
            text.append(" - path: ");
            text.append(instance_path.as_str());
            text
        },
        ValidationDiagnostic::Critical { check_id: _, message, instance_path } => {
            let mut text = message.clone();
            text.append(" - path: ");
            text.append(instance_path.as_str());
            text
        },
    }
}

/// Reports the outcome of a validation to an embedding host.
pub fn lint_report(validation: &Result<(), Vec<ValidationDiagnostic>>) -> (report: ValidationResult)
    ensures
        report.result == (*validation is Ok),
        texts(report.messages@) == messages_of(*validation),
{
    match validation {
        Ok(_) => {
            let mut messages: Vec<String> = Vec::new();
            messages.push("Ok!".to_owned());
            assert(texts(messages@) =~= seq!["Ok!"@]);
            ValidationResult { result: true, messages }
        },
        Err(diagnostics) => {
            let mut messages: Vec<String> = Vec::new();
            let mut index: usize = 0;
            while index < diagnostics.len()
                invariant
                    index <= diagnostics.len(),
                    messages@.len() == index,
                    forall|i: int|
                        0 <= i < index ==> (#[trigger] messages@[i])@ == message_of(diagnostics@[i]),
                decreases diagnostics.len() - index,
            {
                messages.push(flatten(&diagnostics[index]));
                index += 1;
            }
            assert(texts(messages@) =~= messages_of(*validation));
            ValidationResult { result: false, messages }
        },
    }
}

/// Reports a check that could not be decoded: the decoder's error is the only
/// message.
pub fn decode_failure(error: String) -> (report: ValidationResult)
    ensures
        !report.result,
        texts(report.messages@) == seq![error@],
{
    let mut messages: Vec<String> = Vec::new();
    messages.push(error);
    assert(texts(messages@) =~= seq![error@]);
    ValidationResult { result: false, messages }
}

} // verus!
