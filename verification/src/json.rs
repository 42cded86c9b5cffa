//! The JSON shape of a manifest, and the trusted `serde_json` calls that
//! build, print, parse and read manifest values.
//!
//! A manifest value is a JSON array of two-element string arrays, each
//! `[mimetype, path]`.  `serde_json::Value` is opaque to the verifier; the
//! two content names [`str_value_of`] and [`arr_value_of`] say what the
//! trusted calls put into a value and read back out of it, and every
//! contract about manifest values goes through them.

use vstd::prelude::*;

verus! {

/// `serde_json::Value`, declared so that manifest values can stand in
/// verified signatures.
#[verifier::external_type_specification]
#[verifier::external_body]
pub struct ExValue(serde_json::Value);

/// The characters of `v` when `v` is a JSON string, `None` for every other
/// variant.
pub uninterp spec fn str_value_of(v: serde_json::Value) -> Option<Seq<char>>;

/// The elements of `v` when `v` is a JSON array, `None` for every other
/// variant.
pub uninterp spec fn arr_value_of(v: serde_json::Value) -> Option<Seq<serde_json::Value>>;

/// The text that `serde_json::to_string` prints for `v`.  The printed text
/// depends on the value alone: the default map representation keeps its keys
/// in a fixed order, and numbers print deterministically.
pub uninterp spec fn json_text_of(v: serde_json::Value) -> Seq<char>;

/// The `(mimetype, path)` pair that a manifest entry holds, when `v` is a
/// two-element JSON array of strings, mimetype first.
pub open spec fn entry_model(v: serde_json::Value) -> Option<(Seq<char>, Seq<char>)> {
    match arr_value_of(v) {
        Some(items) => {
            if items.len() == 2 && str_value_of(items[0]) is Some && str_value_of(items[1]) is Some {
                Some((str_value_of(items[0])->0, str_value_of(items[1])->0))
            } else {
                None
            }
        },
        None => None,
    }
}

/// The `(mimetype, path)` pairs that a manifest value holds, in array order,
/// when `v` is a JSON array of well-shaped entries.
pub open spec fn manifest_model(v: serde_json::Value) -> Option<Seq<(Seq<char>, Seq<char>)>> {
    match arr_value_of(v) {
        Some(items) => {
            if forall|i: int| 0 <= i < items.len() ==> #[trigger] entry_model(items[i]) is Some {
                Some(Seq::new(items.len(), |i: int| entry_model(items[i])->0))
            } else {
                None
            }
        },
        None => None,
    }
}

/// Relies on `serde_json::Value::String`: the built value is the string
/// variant holding exactly the given characters, and is not an array.
#[verifier::external_body]
pub(crate) fn json_string(s: String) -> (v: serde_json::Value)
    ensures
        str_value_of(v) == Some(s@),
        arr_value_of(v) == None::<Seq<serde_json::Value>>,
{
    serde_json::Value::String(s)
}

/// Relies on `serde_json::Value::Array`: the built value is the array
/// variant holding exactly the given elements, and is not a string.
#[verifier::external_body]
pub(crate) fn json_array(items: Vec<serde_json::Value>) -> (v: serde_json::Value)
    ensures
        arr_value_of(v) == Some(items@),
        str_value_of(v) == None::<Seq<char>>,
{
    serde_json::Value::Array(items)
}

/// Relies on `serde_json::Value::as_array`: the elements of an array value,
/// `None` for every other variant.
pub assume_specification[ serde_json::Value::as_array ](
    v: &serde_json::Value,
) -> (r: Option<&Vec<serde_json::Value>>)
    ensures
        match r {
            Some(items) => arr_value_of(*v) == Some(items@),
            None => arr_value_of(*v) is None,
        },
;

/// Relies on `serde_json::Value::as_str`: the characters of a string value,
/// `None` for every other variant.
pub assume_specification[ serde_json::Value::as_str ](v: &serde_json::Value) -> (r: Option<&str>)
    ensures
        match r {
            Some(s) => str_value_of(*v) == Some(s@),
            None => str_value_of(*v) is None,
        },
;

/// Relies on `serde_json::to_string`: it prints a given value as the same
/// text on every call, and printing fails only for maps with non-string
/// keys, which arrays of strings do not contain.
#[verifier::external_body]
pub(crate) fn value_to_text(v: &serde_json::Value) -> (r: Option<String>)
    ensures
        r is Some ==> r->0@ == json_text_of(*v),
        manifest_model(*v) is Some ==> r is Some,
{
    serde_json::to_string(v).ok()
}

/// Relies on `serde_json::from_str`: text that `serde_json::to_string`
/// printed for an array of string arrays parses back without error, to a
/// value holding the same strings in the same places.
#[verifier::external_body]
pub(crate) fn text_to_value(s: &str) -> (r: Option<serde_json::Value>)
    ensures
        forall|v: serde_json::Value|
            #![trigger json_text_of(v)]
            json_text_of(v) == s@ && manifest_model(v) is Some ==> r is Some
                && manifest_model(r->0) == manifest_model(v),
{
    serde_json::from_str(s).ok()
}

} // verus!
