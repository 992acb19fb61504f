//! Compiling expressions of the embedded scripting language.
//!
//! The validators never run a script. They ask the `rhai` engine to compile it
//! and look at two things: the error text when it does not compile, and the
//! kinds of its top-level statements when it does.

use rhai::{Engine, Expr, Stmt};
use vstd::prelude::*;

verus! {

#[verifier::external_type_specification]
#[verifier::external_body]
pub struct ExEngine(rhai::Engine);

/// The kind of a top-level statement of a compiled script.
#[derive(Clone, Copy, Debug, PartialEq, Eq, Structural)]
pub enum StatementKind {
    /// An expression that is one constant string.
    StringLiteral,
    /// An expression that is a string with embedded sub-expressions.
    InterpolatedString,
    /// Any other expression.
    OtherExpression,
    /// A statement that is not a bare expression.
    NotExpression,
}

/// What `engine` makes of `script`: the kinds of the top-level statements of
/// the syntax tree, in order, or the text of the parse error.
pub uninterp spec fn compile_outcome(engine: Engine, script: Seq<char>) -> Result<
    Seq<StatementKind>,
    Seq<char>,
>;

/// The outcome of a compilation as plain sequences.
pub open spec fn outcome_view(outcome: Result<Vec<StatementKind>, String>) -> Result<
    Seq<StatementKind>,
    Seq<char>,
> {
    match outcome {
        Ok(kinds) => Ok(kinds@),
        Err(text) => Err(text@),
    }
}

/// `rhai::Engine::compile`, reduced to what the validators read. A script that
/// compiles yields the kind of each statement that `AST::statements` lists; one
/// that does not yields the parse error as `Display` writes it. The engine is
/// not changed by the call, so the same engine and script give the same
/// outcome.
#[verifier::external_body]
pub(crate) fn compile(engine: &Engine, script: &str) -> (outcome: Result<Vec<StatementKind>, String>)
    ensures
        outcome_view(outcome) == compile_outcome(*engine, script@),
{
    match engine.compile(script) {
        Ok(ast) => Ok(ast.statements().iter().map(|statement| match statement {
            Stmt::Expr(expression) => match expression.as_ref() {
                Expr::StringConstant(..) => StatementKind::StringLiteral,
                Expr::InterpolatedString(..) => StatementKind::InterpolatedString,
                _ => StatementKind::OtherExpression,
            },
            _ => StatementKind::NotExpression,
        }).collect()),
        Err(error) => Err(error.to_string()),
    }
}

/// The error text of a compilation, if it failed.
pub open spec fn script_error(engine: Engine, script: Seq<char>) -> Option<Seq<char>> {
    match compile_outcome(engine, script) {
        Ok(_) => None,
        Err(text) => Some(text),
    }
}

} // verus!
