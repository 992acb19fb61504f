//! Finding links in prose.
//!
//! The prose of a check is lightweight markup. Links are found in it by
//! `lychee_lib`, which reads the markup and also picks up bare URLs in the
//! text.

use lychee_lib::extract::Extractor;
use lychee_lib::{FileType, InputContent};
use vstd::prelude::*;

verus! {

/// The links in `text` read as Markdown, in the order in which they stand in
/// the text. A link that stands twice is listed twice.
pub uninterp spec fn markdown_links(text: Seq<char>) -> Seq<Seq<char>>;

/// `lychee_lib::extract::Extractor::extract` of a default extractor, on `text`
/// as Markdown content: the `text` of every raw URI that it returns, in its
/// order. The extraction reads nothing but `text`.
#[verifier::external_body]
pub(crate) fn extract_links(text: &str) -> (links: Vec<String>)
    ensures
        links@.map_values(|link: String| link@) == markdown_links(text@),
{
    let content = InputContent::from_string(text, FileType::Markdown);
    Extractor::default().extract(&content).into_iter().map(|uri| uri.text).collect()
}

} // verus!
