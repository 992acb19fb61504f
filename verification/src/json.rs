//! Reading a `serde_json::Value` tree.
//!
//! The tree itself stays opaque to the verifier. What the validators read from
//! it is named here: the member of an object, the elements of an array, the
//! text of a string, the flag of a boolean.

use serde_json::Value;
use vstd::prelude::*;

verus! {

#[verifier::external_type_specification]
#[verifier::external_body]
pub struct ExValue(serde_json::Value);

/// The member that `value` holds under `key`: `Some` exactly when `value` is an
/// object with such a key.
pub uninterp spec fn json_member(value: Value, key: Seq<char>) -> Option<Value>;

/// The elements of `value`, in order: `Some` exactly when `value` is an array.
pub uninterp spec fn json_elements(value: Value) -> Option<Seq<Value>>;

/// The characters of `value`: `Some` exactly when `value` is a string.
pub uninterp spec fn json_text(value: Value) -> Option<Seq<char>>;

/// The flag of `value`: `Some` exactly when `value` is a boolean.
pub uninterp spec fn json_flag(value: Value) -> Option<bool>;

/// The tree that `text` denotes as JSON: `Some` exactly when `text` is one
/// well-formed JSON value.
pub uninterp spec fn parsed_json(text: Seq<char>) -> Option<Value>;

/// `serde_json::from_str` for a `Value`: the tree that `text` denotes, `None`
/// where the parser reports an error. The same text denotes the same tree.
#[verifier::external_body]
pub(crate) fn parse_json(text: &str) -> (parsed: Option<Value>)
    ensures
        parsed == parsed_json(text@),
{
    serde_json::from_str(text).ok()
}

/// `serde_json::Value::get` with a string index: the member under `key` of an
/// object that has one, `None` for a missing key and for any value that is not
/// an object.
#[verifier::external_body]
pub(crate) fn member<'a>(value: &'a Value, key: &str) -> (found: Option<&'a Value>)
    ensures
        found matches Some(m) ==> json_member(*value, key@) == Some(*m),
        found is None ==> json_member(*value, key@) is None,
{
    value.get(key)
}

/// `serde_json::Value::as_array`: the vector inside an array, `None` for any
/// other value.
pub assume_specification[ serde_json::Value::as_array ](value: &Value) -> (found: Option<
    &Vec<Value>,
>)
    ensures
        found matches Some(items) ==> json_elements(*value) == Some(items@),
        found is None ==> json_elements(*value) is None,
;

/// `serde_json::Value::as_str`: the slice inside a string, `None` for any other
/// value.
pub assume_specification[ serde_json::Value::as_str ](value: &Value) -> (found: Option<&str>)
    ensures
        found matches Some(s) ==> json_text(*value) == Some(s@),
        found is None ==> json_text(*value) is None,
;

/// `serde_json::Value::as_bool`: the flag inside a boolean, `None` for any other
/// value.
pub assume_specification[ serde_json::Value::as_bool ](value: &Value) -> (found: Option<bool>)
    ensures
        found == json_flag(*value),
;

/// The JSON text of `value`, as `Display` writes it: compact, with the members
/// of objects in the order in which the tree holds them.
pub uninterp spec fn json_rendering(value: Value) -> Seq<char>;

/// `Display` for `serde_json::Value`, through `to_string`: the value as compact
/// JSON text.
#[verifier::external_body]
pub(crate) fn render(value: &Value) -> (rendered: String)
    ensures
        rendered@ == json_rendering(*value),
{
    value.to_string()
}

/// The elements found under `key`, or none at all where `document` has no such
/// member or the member is not an array.
pub open spec fn elements_under(document: Value, key: Seq<char>) -> Seq<Value> {
    match json_member(document, key) {
        Some(m) => match json_elements(m) {
            Some(items) => items,
            None => Seq::empty(),
        },
        None => Seq::empty(),
    }
}

/// The text found under `key`, or the empty text where `document` has no such
/// member or the member is not a string.
pub open spec fn text_under(document: Value, key: Seq<char>) -> Seq<char> {
    match json_member(document, key) {
        Some(m) => match json_text(m) {
            Some(s) => s,
            None => Seq::empty(),
        },
        None => Seq::empty(),
    }
}

/// Whether `document` has a member under `key`.
pub open spec fn has_member(document: Value, key: Seq<char>) -> bool {
    json_member(document, key) is Some
}

/// The text of `value`, or the empty text where `value` is not a string.
pub fn text_of(value: &Value) -> (text: &str)
    ensures
        text@ == match json_text(*value) {
            Some(s) => s,
            None => Seq::empty(),
        },
{
    match value.as_str() {
        Some(s) => s,
        None => {
            proof {
                reveal_strlit("");
            }
            assert(""@ =~= Seq::<char>::empty());
            ""
        },
    }
}

} // verus!
