//! Trusted boundary to serde_json, and the mathematical model of a JSON
//! tree.  The tree type is declared opaque; what a value holds is given
//! a name (`json_view`), as is what a text parses to (`spec_parse_json`),
//! and each accessor the decoders call is a thin wrapper whose contract
//! speaks over those names.

use vstd::prelude::*;

verus! {

/// The mathematical value of a JSON tree, as far as the protocol reads
/// it: integers, strings, arrays, and objects as their entries in the
/// order the tree hands them out.  Everything the decoders never read —
/// null, booleans, numbers outside `i64` — is `Other`.
pub enum JsonView {
    Int(i64),
    Text(Seq<char>),
    Array(Seq<JsonView>),
    Object(Seq<(Seq<char>, JsonView)>),
    Other,
}

/// The value under the first entry with the given key at or after
/// position `k`, if any.
pub open spec fn spec_obj_get_from(
    es: Seq<(Seq<char>, JsonView)>,
    key: Seq<char>,
    k: int,
) -> Option<JsonView>
    decreases es.len() - k,
{
    if k < 0 || k >= es.len() {
        None
    } else if es[k].0 == key {
        Some(es[k].1)
    } else {
        spec_obj_get_from(es, key, k + 1)
    }
}

/// The member under a top-level key: `None` unless the value is an
/// object holding the key.
pub open spec fn spec_field(j: JsonView, key: Seq<char>) -> Option<JsonView> {
    match j {
        JsonView::Object(es) => spec_obj_get_from(es, key, 0),
        _ => None,
    }
}

/// The member under a key when it is an integer, `None` otherwise.
pub open spec fn spec_int_field(j: JsonView, key: Seq<char>) -> Option<i64> {
    match spec_field(j, key) {
        Some(JsonView::Int(n)) => Some(n),
        _ => None,
    }
}

/// The member under a key when it is a string, `None` otherwise.
pub open spec fn spec_str_field(j: JsonView, key: Seq<char>) -> Option<Seq<char>> {
    match spec_field(j, key) {
        Some(JsonView::Text(t)) => Some(t),
        _ => None,
    }
}

/// serde_json's JSON tree.  The library never looks inside a value of
/// this type except through the accessors below.
#[verifier::external_type_specification]
#[verifier::external_body]
pub struct ExValue(serde_json::Value);

/// What a serde_json tree holds.  The accessors' contracts below are
/// the only facts the library assumes about it.
pub uninterp spec fn json_view(v: serde_json::Value) -> JsonView;

/// What a text parses to: `None` on malformed JSON, else the parsed
/// tree's model.  The result depends on the characters alone.
pub uninterp spec fn spec_parse_json(s: Seq<char>) -> Option<JsonView>;

/// Relies on serde_json::from_str::<Value>: returns the parsed tree on
/// well-formed JSON text and an error otherwise, deterministically in
/// the text.
#[verifier::external_body]
pub(crate) fn parse_json(s: &str) -> (r: Option<serde_json::Value>)
    ensures
        r is Some <==> spec_parse_json(s@) is Some,
        r matches Some(v) ==> Some(json_view(v)) == spec_parse_json(s@),
{
    serde_json::from_str(s).ok()
}

/// Relies on serde_json::Value::get with a string index: the value
/// under the key when `v` is an object holding it, `None` otherwise.
#[verifier::external_body]
pub(crate) fn json_get<'a>(v: &'a serde_json::Value, key: &str) -> (r: Option<
    &'a serde_json::Value,
>)
    ensures
        r is Some <==> spec_field(json_view(*v), key@) is Some,
        r matches Some(f) ==> Some(json_view(*f)) == spec_field(json_view(*v), key@),
{
    v.get(key)
}

/// Relies on serde_json::Value::as_i64: the number exactly when `v` is
/// an integer representable as i64, `None` otherwise.
#[verifier::external_body]
pub(crate) fn json_as_i64(v: &serde_json::Value) -> (r: Option<i64>)
    ensures
        r is Some <==> json_view(*v) is Int,
        r matches Some(n) ==> json_view(*v) == JsonView::Int(n),
{
    v.as_i64()
}

/// Relies on serde_json::Value::as_str: the text exactly when `v` is a
/// JSON string, `None` otherwise.
#[verifier::external_body]
pub(crate) fn json_as_str<'a>(v: &'a serde_json::Value) -> (r: Option<&'a str>)
    ensures
        r is Some <==> json_view(*v) is Text,
        r matches Some(t) ==> json_view(*v) == JsonView::Text(t@),
{
    v.as_str()
}

/// Relies on serde_json::Value::as_array: the elements exactly when `v`
/// is a JSON array, `None` otherwise.
#[verifier::external_body]
pub(crate) fn json_as_array(v: &serde_json::Value) -> (r: Option<Vec<serde_json::Value>>)
    ensures
        r is Some <==> json_view(*v) is Array,
        r matches Some(a) ==> json_view(*v) == JsonView::Array(
            a@.map_values(|e: serde_json::Value| json_view(e)),
        ),
{
    v.as_array().cloned()
}

/// Relies on serde_json::Value::as_object and Map::values: the member
/// values, in entry order, exactly when `v` is a JSON object, `None`
/// otherwise.
#[verifier::external_body]
pub(crate) fn json_object_values(v: &serde_json::Value) -> (r: Option<Vec<serde_json::Value>>)
    ensures
        r is Some <==> json_view(*v) is Object,
        r matches Some(vals) ==> (json_view(*v) matches JsonView::Object(es)
            && vals@.map_values(|e: serde_json::Value| json_view(e)) == es.map_values(
            |p: (Seq<char>, JsonView)| p.1,
        )),
{
    v.as_object().map(|m| m.values().cloned().collect())
}

/// Whether the JSON value is an object carrying the given top-level key.
pub fn json_contains(json: &serde_json::Value, key: &str) -> (r: bool)
    ensures
        r == (spec_field(json_view(*json), key@) is Some),
{
    json_get(json, key).is_some()
}

} // verus!
