//! Reading a `yaml_rust::Yaml` tree.
//!
//! As with JSON, the tree stays opaque to the verifier, and what the decoder
//! reads from it is named here.

use vstd::prelude::*;
use yaml_rust::{Yaml, YamlLoader};

verus! {

#[verifier::external_type_specification]
#[verifier::external_body]
pub struct ExYaml(yaml_rust::Yaml);

/// The documents that `text` holds as YAML: `Some` exactly when `text` is
/// well-formed.
pub uninterp spec fn yaml_documents(text: Seq<char>) -> Option<Seq<Yaml>>;

/// The values of the entries of `node`, in the order of the entries: `Some`
/// exactly when `node` is a hash.
pub uninterp spec fn yaml_values(node: Yaml) -> Option<Seq<Yaml>>;

/// The value that `node` holds under the scalar that `key` denotes: `Some`
/// exactly when `node` is a hash with such an entry.
pub uninterp spec fn yaml_entry(node: Yaml, key: Seq<char>) -> Option<Yaml>;

/// The characters of `node`: `Some` exactly when `node` is a string.
pub uninterp spec fn yaml_text(node: Yaml) -> Option<Seq<char>>;

/// The items of `node`, in order: `Some` exactly when `node` is an array.
pub uninterp spec fn yaml_items(node: Yaml) -> Option<Seq<Yaml>>;

/// `yaml_rust::YamlLoader::load_from_str`: the documents of `input`, `None`
/// where the scanner reports an error. The same text holds the same documents.
#[verifier::external_body]
pub(crate) fn load_documents(input: &str) -> (documents: Option<Vec<Yaml>>)
    ensures
        documents matches Some(found) ==> yaml_documents(input@) == Some(found@),
        documents is None ==> yaml_documents(input@) is None,
{
    YamlLoader::load_from_str(input).ok()
}

/// `yaml_rust::Yaml::as_hash` followed by `values` of the hash: the value of
/// every entry, in the order in which the hash keeps its entries; `None` for a
/// node that is not a hash.
#[verifier::external_body]
pub(crate) fn values_of(node: &Yaml) -> (values: Option<Vec<&Yaml>>)
    ensures
        values matches Some(found) ==> yaml_values(*node) == Some(
            found@.map_values(|value: &Yaml| *value),
        ),
        values is None ==> yaml_values(*node) is None,
{
    node.as_hash().map(|hash| hash.values().collect())
}

/// `yaml_rust::Yaml::as_hash` followed by `get` with the key
/// `Yaml::from_str(key)`: the value of that entry; `None` for a missing entry
/// and for a node that is not a hash.
#[verifier::external_body]
pub(crate) fn entry<'a>(node: &'a Yaml, key: &str) -> (found: Option<&'a Yaml>)
    ensures
        found matches Some(value) ==> yaml_entry(*node, key@) == Some(*value),
        found is None ==> yaml_entry(*node, key@) is None,
{
    node.as_hash().and_then(|hash| hash.get(&Yaml::from_str(key)))
}

/// `yaml_rust::Yaml::as_str`: the slice inside a string, `None` for any other
/// node.
pub assume_specification[ yaml_rust::Yaml::as_str ](node: &Yaml) -> (found: Option<&str>)
    ensures
        found matches Some(s) ==> yaml_text(*node) == Some(s@),
        found is None ==> yaml_text(*node) is None,
;

/// `yaml_rust::Yaml::as_vec`: the vector inside an array, `None` for any other
/// node.
pub assume_specification[ yaml_rust::Yaml::as_vec ](node: &Yaml) -> (found: Option<&Vec<Yaml>>)
    ensures
        found matches Some(items) ==> yaml_items(*node) == Some(items@),
        found is None ==> yaml_items(*node) is None,
;

/// The text of the field `key` of `node`: `Some` exactly when `node` is a hash
/// that holds a string under `key`.
pub open spec fn field_text(node: Yaml, key: Seq<char>) -> Option<Seq<char>> {
    match yaml_entry(node, key) {
        Some(value) => yaml_text(value),
        None => None,
    }
}

} // verus!
