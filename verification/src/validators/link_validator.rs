//! Validation of the links in the prose of a check definition.
//!
//! Checking a link means talking to the network, which this library does not
//! do. It says which links a document holds, and it turns the outcomes of the
//! checks, once somebody has made them, into diagnostics. A link has no place
//! in the document that could be pointed at, so every finding carries the path
//! `N/A`.

use crate::dsl::types::{findings, report};
use crate::dsl::types::{Finding, ValidationDiagnostic, Validator};
use crate::json::{json_member, json_rendering, member, render};
use crate::markdown::{extract_links, markdown_links};
use crate::text::{replace_all, replaced};
use serde_json::Value;
use vstd::prelude::*;

verus! {

/// The outcome of checking one link.
#[derive(Debug)]
pub enum LinkCheck {
    /// The check could not be carried out. `error` says why.
    Failed { error: String },
    /// The check was carried out. `source` is where the link was found,
    /// `success` whether the link is fine. For one that is not, `details`
    /// explains, and where there are no details `unsupported` tells a link of
    /// an unsupported kind from one with the status `code`.
    Checked { source: String, success: bool, details: Option<String>, unsupported: bool, code: String },
}

/// The outcome of checking one link, as plain values.
pub enum LinkCheckView {
    Failed { error: Seq<char> },
    Checked {
        source: Seq<char>,
        success: bool,
        details: Option<Seq<char>>,
        unsupported: bool,
        code: Seq<char>,
    },
}

impl View for LinkCheck {
    type V = LinkCheckView;

    open spec fn view(&self) -> LinkCheckView {
        match *self {
            LinkCheck::Failed { error } => LinkCheckView::Failed { error: error@ },
            LinkCheck::Checked { source, success, details, unsupported, code } => LinkCheckView::Checked {
                source: source@,
                success,
                details: match details {
                    Some(text) => Some(text@),
                    None => None,
                },
                unsupported,
                code: code@,
            },
        }
    }
}

/// Turns the outcomes of link checks into diagnostics.
pub struct LinkValidator {
    /// The outcomes of checking the links of the document, in the order in
    /// which the links were found.
    pub checks: Vec<LinkCheck>,
}

/// What is said about a link that is not fine: its details, else
/// `Unsupported Format` for a link of an unsupported kind, else its status
/// code.
pub open spec fn link_details(details: Option<Seq<char>>, unsupported: bool, code: Seq<char>) -> Seq<
    char,
> {
    match details {
        Some(text) => text,
        None => if unsupported {
            "Unsupported Format"@
        } else {
            code
        },
    }
}

/// The findings about one checked link: a critical one where the check could
/// not be carried out, a warning where the link is not fine, nothing where it
/// is.
pub open spec fn link_check_findings(check_id: Seq<char>, check: LinkCheckView) -> Seq<Finding> {
    match check {
        LinkCheckView::Failed { error } => seq![
            Finding::Critical {
                check_id,
                message: "Failed to validate link in check: "@ + error,
                instance_path: "N/A"@,
            },
        ],
        LinkCheckView::Checked { source, success, details, unsupported, code } => if success {
            Seq::empty()
        } else {
            seq![
                Finding::Warning {
                    check_id,
                    message: "Invalid link ("@ + source + "): "@ + link_details(
                        details,
                        unsupported,
                        code,
                    ),
                    instance_path: "N/A"@,
                },
            ]
        },
    }
}

/// The findings about the first `count` of `checks`.
pub open spec fn findings_of_first(check_id: Seq<char>, checks: Seq<LinkCheckView>, count: nat) -> Seq<
    Finding,
>
    decreases count,
{
    if count == 0 {
        Seq::empty()
    } else {
        let index = (count - 1) as nat;
        findings_of_first(check_id, checks, index) + link_check_findings(
            check_id,
            checks[index as int],
        )
    }
}

/// The findings about all of `checks`, in order.
pub open spec fn link_findings(check_id: Seq<char>, checks: Seq<LinkCheck>) -> Seq<Finding> {
    let views = checks.map_values(|check: LinkCheck| check@);
    findings_of_first(check_id, views, views.len())
}

/// The text under `key` in which links are looked for: the member as JSON
/// text, with every escaped line break in it replaced by a blank. It is empty
/// where the document has no such member.
pub open spec fn link_text(document: Value, key: Seq<char>) -> Seq<char> {
    match json_member(document, key) {
        Some(value) => replaced(json_rendering(value), "\\n"@, " "@),
        None => Seq::empty(),
    }
}

fn text_under(json_check: &Value, key: &str) -> (text: String)
    ensures
        text@ == link_text(*json_check, key@),
{
    match member(json_check, key) {
        Some(value) => {
            proof {
                reveal_strlit("\\n");
            }
            let rendered = render(value);
            replace_all(rendered.as_str(), "\\n", " ")
        },
        None => String::new(),
    }
}

fn diagnose(check: &LinkCheck, check_id: &str, diagnostics: &mut Vec<ValidationDiagnostic>)
    ensures
        findings(final(diagnostics)@) == findings(old(diagnostics)@) + link_check_findings(
            check_id@,
            check@,
        ),
{
    match check {
        LinkCheck::Failed { error } => {
            let mut message = "Failed to validate link in check: ".to_owned();
            message.append(error.as_str());
            report(diagnostics, ValidationDiagnostic::critical(check_id, message, "N/A".to_owned()));
        },
        LinkCheck::Checked { source, success, details, unsupported, code } => {
            if !*success {
                let mut message = "Invalid link (".to_owned();
                message.append(source.as_str());
                message.append("): ");
                match details {
                    Some(text) => {
                        message.append(text.as_str());
                    },
                    None => {
                        if *unsupported {
                            message.append("Unsupported Format");
                        } else {
                            message.append(code.as_str());
                        }
                    },
                }
                report(
                    diagnostics,
                    ValidationDiagnostic::warning(check_id, message, "N/A".to_owned()),
                );
            }
        },
    }
    assert(findings(diagnostics@) =~= findings(old(diagnostics)@) + link_check_findings(
        check_id@,
        check@,
    ));
}

/// The links of a document: those in the text of `remediation` first, those in
/// the text of `description` after them.
pub open spec fn document_links(document: Value) -> Seq<Seq<char>> {
    markdown_links(link_text(document, "remediation"@)) + markdown_links(
        link_text(document, "description"@),
    )
}

impl LinkValidator {
    /// The links of `json_check`, in the order in which they are to be
    /// checked.
    pub fn links(json_check: &Value) -> (links: Vec<String>)
        ensures
            links@.map_values(|link: String| link@) == document_links(*json_check),
    {
        let remediation = text_under(json_check, "remediation");
        let mut links = extract_links(remediation.as_str());
        let ghost first = links@;
        let description = text_under(json_check, "description");
        let mut description_links = extract_links(description.as_str());
        let ghost second = description_links@;
        links.append(&mut description_links);
        assert(links@.map_values(|link: String| link@) =~= first.map_values(|link: String| link@)
            + second.map_values(|link: String| link@));
        links
    }
}

impl Validator for LinkValidator {
    open spec fn findings_in(&self, document: Value, check_id: Seq<char>) -> Seq<Finding> {
        link_findings(check_id, self.checks@)
    }

    fn validate(&self, json_check: &Value, check_id: &str) -> (diagnostics: Vec<
        ValidationDiagnostic,
    >) {
        let mut diagnostics: Vec<ValidationDiagnostic> = Vec::new();
        let ghost views = self.checks@.map_values(|check: LinkCheck| check@);
        let mut index: usize = 0;
        while index < self.checks.len()
            invariant
                index <= self.checks.len(),
                views == self.checks@.map_values(|check: LinkCheck| check@),
                findings(diagnostics@) == findings_of_first(check_id@, views, index as nat),
            decreases self.checks.len() - index,
        {
            diagnose(&self.checks[index], check_id, &mut diagnostics);
            index += 1;
        }
        diagnostics
    }
}

} // verus!
