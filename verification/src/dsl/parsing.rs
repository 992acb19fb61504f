//! Decoding checks from a YAML document.
//!
//! A document is a hash of checks. Every check is decoded on its own: it
//! either yields a `Check` or the list of everything that is missing in it.

use super::types::{Check, CheckView, Expectation, FactDeclaration, FactDeclarationView};
use super::types::{ParsingError, ParsingErrorView};
use crate::text::{decimal, decimal_string};
use crate::yaml::{entry, load_documents, values_of};
use crate::yaml::{field_text, yaml_documents, yaml_entry, yaml_items, yaml_values};
use vstd::prelude::*;
use yaml_rust::Yaml;

verus! {

/// Reads the YAML documents of `input`: `None` where `input` is not
/// well-formed YAML.
pub fn string_to_yaml(input: String) -> (documents: Option<Vec<Yaml>>)
    ensures
        documents matches Some(found) ==> yaml_documents(input@) == Some(found@),
        documents is None ==> yaml_documents(input@) is None,
{
    load_documents(input.as_str())
}

/// The text of an optional field, empty where the field is missing.
pub open spec fn text_or_empty(text: Option<Seq<char>>) -> Seq<char> {
    match text {
        Some(t) => t,
        None => Seq::empty(),
    }
}

/// The error about a field that is missing or not a string. It names no
/// check.
pub open spec fn not_found(field: Seq<char>) -> ParsingErrorView {
    ParsingErrorView { check_id: Seq::empty(), error: field + " not found"@ }
}

/// What reading the field `field` of `node` gives.
pub open spec fn field_outcome(node: Yaml, field: Seq<char>) -> Result<Seq<char>, ParsingErrorView> {
    match field_text(node, field) {
        Some(text) => Ok(text),
        None => Err(not_found(field)),
    }
}

/// What is missing in the fact at `index`: a fact needs a name and a gatherer.
pub open spec fn fact_faults(fact: Yaml, index: nat) -> Seq<Seq<char>> {
    let name = if field_text(fact, "name"@) is None {
        seq!["fact "@ + decimal(index) + " - name not defined"@]
    } else {
        Seq::<Seq<char>>::empty()
    };
    let gatherer = if field_text(fact, "gatherer"@) is None {
        seq!["fact "@ + decimal(index) + " - gatherer not defined"@]
    } else {
        Seq::<Seq<char>>::empty()
    };
    name + gatherer
}

/// The declaration that a fact denotes. Its argument is optional.
pub open spec fn decoded_fact(fact: Yaml) -> FactDeclarationView {
    FactDeclarationView {
        name: text_or_empty(field_text(fact, "name"@)),
        gatherer: text_or_empty(field_text(fact, "gatherer"@)),
        argument: field_text(fact, "argument"@),
    }
}

/// The facts of a check: the items under `facts`, none where there is no such
/// array.
pub open spec fn facts_of(node: Yaml) -> Seq<Yaml> {
    match yaml_entry(node, "facts"@) {
        Some(facts) => match yaml_items(facts) {
            Some(items) => items,
            None => Seq::empty(),
        },
        None => Seq::empty(),
    }
}

/// The index of the first fact from `from` on in which something is missing.
pub open spec fn first_faulty(facts: Seq<Yaml>, from: nat) -> Option<nat>
    decreases facts.len() - from,
{
    if from >= facts.len() {
        None
    } else if fact_faults(facts[from as int], from).len() > 0 {
        Some(from)
    } else {
        first_faulty(facts, from + 1)
    }
}

/// Errors that name no check, one per message.
pub open spec fn anonymous_errors(messages: Seq<Seq<char>>) -> Seq<ParsingErrorView> {
    messages.map_values(|message: Seq<char>| ParsingErrorView { check_id: Seq::empty(), error: message })
}

/// What decoding the facts of a check gives: all declarations, or what is
/// missing in the first fact that misses something.
pub open spec fn facts_outcome(node: Yaml) -> Result<Seq<FactDeclarationView>, Seq<ParsingErrorView>> {
    let facts = facts_of(node);
    match first_faulty(facts, 0) {
        Some(index) => Err(anonymous_errors(fact_faults(facts[index as int], index))),
        None => Ok(facts.map_values(|fact: Yaml| decoded_fact(fact))),
    }
}

/// The messages of `errors`, joined by a comma and a blank.
pub open spec fn joined(errors: Seq<ParsingErrorView>) -> Seq<char>
    decreases errors.len(),
{
    if errors.len() == 0 {
        Seq::empty()
    } else {
        let earlier = joined(errors.drop_last());
        if earlier.len() == 0 {
            errors.last().error
        } else {
            earlier + ", "@ + errors.last().error
        }
    }
}

/// The error about a required field of a check, where the field is missing.
pub open spec fn absent(node: Yaml, field: Seq<char>, check_id: Seq<char>, error: Seq<char>) -> Seq<
    ParsingErrorView,
> {
    if field_text(node, field) is None {
        seq![ParsingErrorView { check_id, error }]
    } else {
        Seq::empty()
    }
}

/// Everything that is wrong with a check, in the order in which it is
/// reported. A check without id is called `Unknown id`; all other errors are
/// attributed to the id, which is empty where it is missing.
pub open spec fn check_faults(node: Yaml) -> Seq<ParsingErrorView> {
    let id = text_or_empty(field_text(node, "id"@));
    absent(node, "id"@, "Unknown id"@, "declared check has no id"@) + absent(
        node,
        "name"@,
        id,
        "check has no name declared"@,
    ) + absent(node, "group"@, id, "check has no group declared"@) + absent(
        node,
        "description"@,
        id,
        "check has no description declared"@,
    ) + absent(node, "remediation"@, id, "check has no remediation declared"@) + (match facts_outcome(
        node,
    ) {
        Ok(_) => Seq::<ParsingErrorView>::empty(),
        Err(errors) => seq![ParsingErrorView { check_id: id, error: joined(errors) }],
    })
}

/// The check that a node denotes, where nothing is wrong with it. It has no
/// metadata, no condition and no expectations.
pub open spec fn decoded_check(node: Yaml, check: CheckView) -> bool {
    &&& check.id == text_or_empty(field_text(node, "id"@))
    &&& check.name == text_or_empty(field_text(node, "name"@))
    &&& check.group == text_or_empty(field_text(node, "group"@))
    &&& check.description == text_or_empty(field_text(node, "description"@))
    &&& check.remediation == text_or_empty(field_text(node, "remediation"@))
    &&& check.metadata is None
    &&& check.when is None
    &&& facts_outcome(node) == Ok::<Seq<FactDeclarationView>, Seq<ParsingErrorView>>(check.facts)
    &&& check.expectations.len() == 0
}

/// The errors of a list as plain values.
pub open spec fn error_views(errors: Seq<ParsingError>) -> Seq<ParsingErrorView> {
    errors.map_values(|error: ParsingError| error@)
}

/// Whether `decoding` is what decoding `node` gives: the check where nothing
/// is wrong with it, else all that is.
pub open spec fn decodes(node: Yaml, decoding: Result<Check, Vec<ParsingError>>) -> bool {
    match decoding {
        Ok(check) => check_faults(node).len() == 0 && decoded_check(node, check@),
        Err(errors) => check_faults(node).len() > 0 && error_views(errors@) == check_faults(node),
    }
}

fn error(check_id: String, message: String) -> (e: ParsingError)
    ensures
        e@ == (ParsingErrorView { check_id: check_id@, error: message@ }),
{
    ParsingError { check_id, error: message }
}

fn note(errors: &mut Vec<ParsingError>, e: ParsingError)
    ensures
        error_views(final(errors)@) == error_views(old(errors)@).push(e@),
{
    errors.push(e);
    assert(error_views(errors@) =~= error_views(old(errors)@).push(e@));
}

/// Reads the field `name` of `node` as text.
pub fn field(name: &str, node: &Yaml) -> (outcome: Result<String, ParsingError>)
    ensures
        match field_outcome(*node, name@) {
            Ok(text) => outcome matches Ok(found) && found@ == text,
            Err(e) => outcome matches Err(found) && found@ == e,
        },
{
    let value = match entry(node, name) {
        Some(value) => value.as_str(),
        None => None,
    };
    match value {
        Some(text) => Ok(text.to_owned()),
        None => {
            let mut message = name.to_owned();
            message.append(" not found");
            Err(error(String::new(), message))
        },
    }
}

fn optional_field(name: &str, node: &Yaml) -> (text: Option<String>)
    ensures
        super::types::optional_text(text) == field_text(*node, name@),
{
    match field(name, node) {
        Ok(text) => Some(text),
        Err(_) => None,
    }
}

fn required_field(
    name: &str,
    node: &Yaml,
    errors: &mut Vec<ParsingError>,
    check_id: String,
    message: &str,
) -> (text: String)
    ensures
        text@ == text_or_empty(field_text(*node, name@)),
        error_views(final(errors)@) == error_views(old(errors)@) + absent(
            *node,
            name@,
            check_id@,
            message@,
        ),
{
    match field(name, node) {
        Ok(text) => {
            assert(error_views(errors@) =~= error_views(old(errors)@) + absent(
                *node,
                name@,
                check_id@,
                message@,
            ));
            text
        },
        Err(_) => {
            note(errors, error(check_id, message.to_owned()));
            assert(error_views(errors@) =~= error_views(old(errors)@) + absent(
                *node,
                name@,
                check_id@,
                message@,
            ));
            String::new()
        },
    }
}

fn fact_message(index: usize, what: &str) -> (message: String)
    ensures
        message@ == "fact "@ + decimal(index as nat) + what@,
{
    let mut message = "fact ".to_owned();
    message.append(decimal_string(index).as_str());
    message.append(what);
    message
}

fn decode_fact(fact: &Yaml, index: usize) -> (outcome: Result<FactDeclaration, Vec<ParsingError>>)
    ensures
        match outcome {
            Ok(declaration) => fact_faults(*fact, index as nat).len() == 0 && declaration@
                == decoded_fact(*fact),
            Err(errors) => fact_faults(*fact, index as nat).len() > 0 && error_views(errors@)
                == anonymous_errors(fact_faults(*fact, index as nat)),
        },
{
    let mut errors: Vec<ParsingError> = Vec::new();
    let name = match field("name", fact) {
        Ok(text) => text,
        Err(_) => {
            note(&mut errors, error(String::new(), fact_message(index, " - name not defined")));
            String::new()
        },
    };
    let gatherer = match field("gatherer", fact) {
        Ok(text) => text,
        Err(_) => {
            note(&mut errors, error(String::new(), fact_message(index, " - gatherer not defined")));
            String::new()
        },
    };
    let argument = optional_field("argument", fact);
    assert(error_views(errors@) =~= anonymous_errors(fact_faults(*fact, index as nat)));
    if errors.len() == 0 {
        Ok(FactDeclaration { name, gatherer, argument })
    } else {
        Err(errors)
    }
}

/// The views of a list of fact declarations.
pub open spec fn fact_views(facts: Seq<FactDeclaration>) -> Seq<FactDeclarationView> {
    facts.map_values(|fact: FactDeclaration| fact@)
}

/// Decodes the facts of a check. The first fact that misses something ends
/// the decoding with what it misses.
pub fn fact_declarations(node: &Yaml) -> (outcome: Result<Vec<FactDeclaration>, Vec<ParsingError>>)
    ensures
        match facts_outcome(*node) {
            Ok(facts) => outcome matches Ok(found) && fact_views(found@) == facts,
            Err(errors) => outcome matches Err(found) && error_views(found@) == errors,
        },
{
    let mut declarations: Vec<FactDeclaration> = Vec::new();
    let facts = match entry(node, "facts") {
        Some(found) => found.as_vec(),
        None => None,
    };
    match facts {
        Some(facts) => {
            let mut index: usize = 0;
            while index < facts.len()
                invariant
                    index <= facts.len(),
                    facts@ == facts_of(*node),
                    first_faulty(facts@, 0) == first_faulty(facts@, index as nat),
                    declarations@.len() == index,
                    forall|i: int|
                        0 <= i < index ==> (#[trigger] declarations@[i])@ == decoded_fact(facts@[i]),
                decreases facts.len() - index,
            {
                match decode_fact(&facts[index], index) {
                    Ok(declaration) => {
                        declarations.push(declaration);
                    },
                    Err(errors) => {
                        return Err(errors);
                    },
                }
                index += 1;
            }
            assert(fact_views(declarations@) =~= facts@.map_values(|fact: Yaml| decoded_fact(fact)));
        },
        None => {
            assert(fact_views(declarations@) =~= facts_of(*node).map_values(
                |fact: Yaml| decoded_fact(fact),
            ));
        },
    }
    Ok(declarations)
}

fn join(errors: &Vec<ParsingError>) -> (text: String)
    ensures
        text@ == joined(error_views(errors@)),
{
    let mut text = String::new();
    let mut index: usize = 0;
    while index < errors.len()
        invariant
            index <= errors.len(),
            text@ == joined(error_views(errors@).take(index as int)),
        decreases errors.len() - index,
    {
        let ghost upto = error_views(errors@).take(index + 1);
        assert(upto.drop_last() =~= error_views(errors@).take(index as int));
        assert(upto.last() == errors@[index as int]@);
        if text.as_str().unicode_len() == 0 {
            text = errors[index].error.clone();
        } else {
            text.append(", ");
            text.append(errors[index].error.as_str());
        }
        index += 1;
    }
    assert(error_views(errors@).take(index as int) =~= error_views(errors@));
    text
}

fn decode_check(node: &Yaml) -> (decoding: Result<Check, Vec<ParsingError>>)
    ensures
        decodes(*node, decoding),
{
    let mut errors: Vec<ParsingError> = Vec::new();
    assert(error_views(errors@) =~= Seq::<ParsingErrorView>::empty());

    let id = required_field(
        "id",
        node,
        &mut errors,
        "Unknown id".to_owned(),
        "declared check has no id",
    );
    let name = required_field("name", node, &mut errors, id.clone(), "check has no name declared");
    let group = required_field(
        "group",
        node,
        &mut errors,
        id.clone(),
        "check has no group declared",
    );
    let description = required_field(
        "description",
        node,
        &mut errors,
        id.clone(),
        "check has no description declared",
    );
    let remediation = required_field(
        "remediation",
        node,
        &mut errors,
        id.clone(),
        "check has no remediation declared",
    );
    let facts = match fact_declarations(node) {
        Ok(facts) => facts,
        Err(fact_errors) => {
            let combined_error = join(&fact_errors);
            note(&mut errors, error(id.clone(), combined_error));
            Vec::new()
        },
    };
    assert(error_views(errors@) =~= check_faults(*node));

    if errors.len() == 0 {
        let expectations: Vec<Expectation> = Vec::new();
        let check = Check {
            id,
            name,
            group,
            metadata: None,
            when: None,
            description,
            remediation,
            facts,
            expectations,
        };
        assert(check@.facts =~= fact_views(check.facts@));
        Ok(check)
    } else {
        Err(errors)
    }
}

/// The checks of a document: the values of its entries, none where the
/// document is not a hash.
pub open spec fn checks_of(document: Yaml) -> Seq<Yaml> {
    match yaml_values(document) {
        Some(values) => values,
        None => Seq::empty(),
    }
}

/// Decodes every check of a document, in the order of the document.
pub fn get_checks(yaml_document: &Yaml) -> (checks: Vec<Result<Check, Vec<ParsingError>>>)
    ensures
        checks@.len() == checks_of(*yaml_document).len(),
        forall|i: int|
            0 <= i < checks@.len() ==> decodes(checks_of(*yaml_document)[i], #[trigger] checks@[i]),
{
    let mut checks: Vec<Result<Check, Vec<ParsingError>>> = Vec::new();
    match values_of(yaml_document) {
        Some(nodes) => {
            let mut index: usize = 0;
            while index < nodes.len()
                invariant
                    index <= nodes.len(),
                    nodes@.map_values(|value: &Yaml| *value) == checks_of(*yaml_document),
                    checks@.len() == index,
                    forall|i: int|
                        0 <= i < index ==> decodes(
                            checks_of(*yaml_document)[i],
                            #[trigger] checks@[i],
                        ),
                decreases nodes.len() - index,
            {
                assert(checks_of(*yaml_document)[index as int] == *nodes@[index as int]);
                checks.push(decode_check(nodes[index]));
                index += 1;
            }
        },
        None => {},
    }
    checks
}

} // verus!
