//! Declarations and trusted wrappers for the JSON documents that ride along
//! with events.  A `serde_json::Value` is opaque to the verified logic: the
//! library builds payloads and reads fields only through the wrappers below,
//! whose results are named by uninterpreted spec functions — each is a pure
//! function of its arguments, as serde_json's source shows.

use vstd::prelude::*;

verus! {

/// The view of a field list: each key as its characters, values as they are.
pub open spec fn fields_view(fields: Seq<(String, serde_json::Value)>) -> Seq<
    (Seq<char>, serde_json::Value),
> {
    fields.map_values(|p: (String, serde_json::Value)| (p.0@, p.1))
}

#[verifier::external_type_specification]
#[verifier::external_body]
pub struct ExValue(serde_json::Value);

/// Relies on serde_json: `Value` derives `Clone`, and a clone is structurally
/// equal to the original.
pub assume_specification[ <serde_json::Value as Clone>::clone ](v: &serde_json::Value) -> (r:
    serde_json::Value)
    ensures
        r == *v,
;

/// The JSON string holding the given characters.
pub uninterp spec fn json_string_of(s: Seq<char>) -> serde_json::Value;

/// The JSON number holding the given unsigned integer.
pub uninterp spec fn json_u64_of(n: u64) -> serde_json::Value;

/// The JSON number holding the given signed integer.
pub uninterp spec fn json_i64_of(n: i64) -> serde_json::Value;

/// The JSON boolean holding the given truth value.
pub uninterp spec fn json_bool_of(b: bool) -> serde_json::Value;

/// The JSON object holding the given fields, in order.
pub uninterp spec fn json_object_of(fields: Seq<(Seq<char>, serde_json::Value)>) -> serde_json::Value;

/// The JSON array holding the given strings, in order.
pub uninterp spec fn json_string_array_of(items: Seq<Seq<char>>) -> serde_json::Value;

/// The member of a JSON object under a key, if the value is an object with
/// that key.
pub uninterp spec fn json_member_of(v: serde_json::Value, key: Seq<char>) -> Option<serde_json::Value>;

/// The characters of a JSON string, if the value is a string.
pub uninterp spec fn json_str_of(v: serde_json::Value) -> Option<Seq<char>>;

/// The truth value of a JSON boolean, if the value is a boolean.
pub uninterp spec fn json_bool_read_of(v: serde_json::Value) -> Option<bool>;

/// The unsigned integer held by a JSON number, if the value is one.
pub uninterp spec fn json_u64_read_of(v: serde_json::Value) -> Option<u64>;

/// The fields of a JSON object, in the object's own order, if the value is an
/// object.
pub uninterp spec fn json_entries_of(v: serde_json::Value) -> Option<
    Seq<(Seq<char>, serde_json::Value)>,
>;

/// Relies on serde_json's `Value::String` constructor.
#[verifier::external_body]
pub fn json_string(s: &str) -> (r: serde_json::Value)
    ensures
        r == json_string_of(s@),
{
    serde_json::Value::String(s.to_string())
}

/// Relies on serde_json's `Value::Number` constructor and `Number::from`.
#[verifier::external_body]
pub fn json_u64(n: u64) -> (r: serde_json::Value)
    ensures
        r == json_u64_of(n),
{
    serde_json::Value::Number(serde_json::Number::from(n))
}

/// Relies on serde_json's `Value::Number` constructor and `Number::from`.
#[verifier::external_body]
pub fn json_i64(n: i64) -> (r: serde_json::Value)
    ensures
        r == json_i64_of(n),
{
    serde_json::Value::Number(serde_json::Number::from(n))
}

/// Relies on serde_json's `Value::Bool` constructor.
#[verifier::external_body]
pub fn json_bool(b: bool) -> (r: serde_json::Value)
    ensures
        r == json_bool_of(b),
{
    serde_json::Value::Bool(b)
}

/// Relies on serde_json's `Map::insert` and `Value::Object`: builds the object
/// holding the given fields.
#[verifier::external_body]
pub fn json_object(fields: Vec<(String, serde_json::Value)>) -> (r: serde_json::Value)
    ensures
        r == json_object_of(fields_view(fields@)),
{
    let mut m = serde_json::Map::new();
    for (k, v) in fields {
        m.insert(k, v);
    }
    serde_json::Value::Object(m)
}

/// Relies on serde_json's `Value::Array` and `Value::String` constructors:
/// builds the array holding the given strings.
#[verifier::external_body]
pub fn json_string_array(items: &Vec<String>) -> (r: serde_json::Value)
    ensures
        r == json_string_array_of(items@.map_values(|s: String| s@)),
{
    serde_json::Value::Array(
        items.iter().map(|s| serde_json::Value::String(s.clone())).collect(),
    )
}

/// Relies on serde_json's `Value::get`: the member under a key of an object.
#[verifier::external_body]
pub fn json_get<'a>(v: &'a serde_json::Value, key: &str) -> (r: Option<&'a serde_json::Value>)
    ensures
        match r {
            Some(m) => json_member_of(*v, key@) == Some(*m),
            None => json_member_of(*v, key@) == None::<serde_json::Value>,
        },
{
    v.get(key)
}

/// Relies on serde_json's `Value::as_str`.
#[verifier::external_body]
pub fn json_as_str<'a>(v: &'a serde_json::Value) -> (r: Option<&'a str>)
    ensures
        match r {
            Some(s) => json_str_of(*v) == Some(s@),
            None => json_str_of(*v) == None::<Seq<char>>,
        },
{
    v.as_str()
}

/// Relies on serde_json's `Value::as_bool`.
#[verifier::external_body]
pub fn json_as_bool(v: &serde_json::Value) -> (r: Option<bool>)
    ensures
        r == json_bool_read_of(*v),
{
    v.as_bool()
}

/// Relies on serde_json's `Value::as_u64`.
#[verifier::external_body]
pub fn json_as_u64(v: &serde_json::Value) -> (r: Option<u64>)
    ensures
        r == json_u64_read_of(*v),
{
    v.as_u64()
}

/// Relies on serde_json's `Value::as_object`: hands the fields out as a
/// vector of pairs, in the object's own (deterministic, ordered) traversal
/// order.
#[verifier::external_body]
pub fn json_entries(v: &serde_json::Value) -> (r: Option<Vec<(String, serde_json::Value)>>)
    ensures
        match r {
            Some(es) => json_entries_of(*v) == Some(fields_view(es@)),
            None => json_entries_of(*v) == None::<Seq<(Seq<char>, serde_json::Value)>>,
        },
{
    match v.as_object() {
        Some(m) => Some(m.iter().map(|(k, x)| (k.clone(), x.clone())).collect()),
        None => None,
    }
}

} // verus!
