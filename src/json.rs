//! The JSON operations the library relies on, each a thin trusted item over
//! `serde_json`. Values are opaque; what the library needs to know about them
//! is given by the spec functions declared here.
use vstd::prelude::*;

verus! {

#[verifier::external_type_specification]
#[verifier::external_body]
pub struct ExJsonValue(serde_json::Value);

#[verifier::external_type_specification]
#[verifier::external_body]
#[verifier::reject_recursive_types(K)]
#[verifier::reject_recursive_types(V)]
pub struct ExJsonMap<K, V>(serde_json::Map<K, V>);

/// The map type that a JSON object holds.
pub type JsonObject = serde_json::Map<String, serde_json::Value>;

/// The string a value holds, if it is a JSON string (`Value::as_str`).
pub uninterp spec fn json_str(v: serde_json::Value) -> Option<Seq<char>>;

/// The elements a value holds, if it is a JSON array (`Value::as_array`).
pub uninterp spec fn json_array(v: serde_json::Value) -> Option<Seq<serde_json::Value>>;

/// Whether a value is a JSON object (`Value::is_object`).
pub uninterp spec fn json_is_object(v: serde_json::Value) -> bool;

/// Whether a value is JSON `null` (`Value::is_null`).
pub uninterp spec fn json_is_null(v: serde_json::Value) -> bool;

/// The member of an object under a key (`Value::get` with a string key).
pub uninterp spec fn json_field(v: serde_json::Value, key: Seq<char>) -> Option<serde_json::Value>;

/// The value as an unsigned integer, where it is one (`Value::as_u64`).
pub uninterp spec fn json_u64(v: serde_json::Value) -> Option<u64>;

/// The value as a signed integer, where it is one (`Value::as_i64`).
pub uninterp spec fn json_i64(v: serde_json::Value) -> Option<i64>;

/// The compact JSON text of a value (`Value::to_string`).
pub uninterp spec fn json_text(v: serde_json::Value) -> Seq<char>;

/// The members of an object under construction (`serde_json::Map`).
pub uninterp spec fn object_entries(m: JsonObject) -> Map<Seq<char>, serde_json::Value>;

/// `v` is an object whose member `key` is the JSON string `s`.
pub open spec fn str_member(v: serde_json::Value, key: Seq<char>, s: Seq<char>) -> bool {
    json_field(v, key) matches Some(x) && json_str(x) == Some(s)
}

/// Relies on `Value::String`: the value is a JSON string holding `s`.
#[verifier::external_body]
pub(crate) fn string_value(s: String) -> (r: serde_json::Value)
    ensures
        json_str(r) == Some(s@),
        json_array(r) is None,
        !json_is_object(r),
        !json_is_null(r),
{
    serde_json::Value::String(s)
}

/// Relies on `Value::Array`: the value is a JSON array of `items`, in order.
#[verifier::external_body]
pub(crate) fn array_value(items: Vec<serde_json::Value>) -> (r: serde_json::Value)
    ensures
        json_array(r) == Some(items@),
        json_str(r) is None,
        !json_is_object(r),
        !json_is_null(r),
{
    serde_json::Value::Array(items)
}

/// Relies on `Value::from(u32)`: a JSON number that `as_u64` reads back.
#[verifier::external_body]
pub(crate) fn u32_value(n: u32) -> (r: serde_json::Value)
    ensures
        json_u64(r) == Some(n as u64),
        json_str(r) is None,
        json_array(r) is None,
        !json_is_object(r),
        !json_is_null(r),
{
    serde_json::Value::from(n)
}

/// Relies on `Value::from(i64)`: a JSON number that `as_i64` reads back.
#[verifier::external_body]
pub(crate) fn i64_value(n: i64) -> (r: serde_json::Value)
    ensures
        json_i64(r) == Some(n),
        json_str(r) is None,
        json_array(r) is None,
        !json_is_object(r),
        !json_is_null(r),
{
    serde_json::Value::from(n)
}

/// Relies on `Map::new`: a map with no members.
#[verifier::external_body]
pub(crate) fn new_object() -> (r: JsonObject)
    ensures
        object_entries(r).dom().is_empty(),
{
    serde_json::Map::new()
}

/// Relies on `Map::insert`: the key now maps to `v`, replacing any earlier member.
#[verifier::external_body]
pub(crate) fn object_insert(m: &mut JsonObject, key: String, v: serde_json::Value)
    ensures
        object_entries(*final(m)) == object_entries(*old(m)).insert(key@, v),
{
    m.insert(key, v);
}

/// Relies on `Value::Object` and on `Value::get`, which looks a key up in the map.
#[verifier::external_body]
pub(crate) fn object_value(m: JsonObject) -> (r: serde_json::Value)
    ensures
        json_is_object(r),
        json_str(r) is None,
        json_array(r) is None,
        !json_is_null(r),
        forall|k: Seq<char>|
            #[trigger] json_field(r, k) == (if object_entries(m).contains_key(k) {
                Some(object_entries(m)[k])
            } else {
                None
            }),
{
    serde_json::Value::Object(m)
}

/// Relies on `Value::as_str`.
#[verifier::external_body]
pub(crate) fn as_str(v: &serde_json::Value) -> (r: Option<&str>)
    ensures
        match r {
            Some(s) => json_str(*v) == Some(s@),
            None => json_str(*v) is None,
        },
{
    v.as_str()
}

/// Relies on `Value::as_array`.
#[verifier::external_body]
pub(crate) fn as_array(v: &serde_json::Value) -> (r: Option<&Vec<serde_json::Value>>)
    ensures
        match r {
            Some(a) => json_array(*v) == Some(a@),
            None => json_array(*v) is None,
        },
{
    v.as_array()
}

/// Relies on `Value::is_object`.
#[verifier::external_body]
pub(crate) fn is_object(v: &serde_json::Value) -> (r: bool)
    ensures
        r == json_is_object(*v),
{
    v.is_object()
}

/// Relies on `Value::is_null`.
#[verifier::external_body]
pub(crate) fn is_null(v: &serde_json::Value) -> (r: bool)
    ensures
        r == json_is_null(*v),
{
    v.is_null()
}

/// Relies on `Value::get` with a string key.
#[verifier::external_body]
pub(crate) fn get<'a>(v: &'a serde_json::Value, key: &str) -> (r: Option<&'a serde_json::Value>)
    ensures
        match r {
            Some(x) => json_field(*v, key@) == Some(*x),
            None => json_field(*v, key@) is None,
        },
{
    v.get(key)
}

/// Relies on `Value::as_u64`.
#[verifier::external_body]
pub(crate) fn as_u64(v: &serde_json::Value) -> (r: Option<u64>)
    ensures
        r == json_u64(*v),
{
    v.as_u64()
}

/// Relies on `Value::as_i64`.
#[verifier::external_body]
pub(crate) fn as_i64(v: &serde_json::Value) -> (r: Option<i64>)
    ensures
        r == json_i64(*v),
{
    v.as_i64()
}

/// Relies on the derived `Clone` of `Value`, which copies the whole tree.
#[verifier::external_body]
pub(crate) fn clone_value(v: &serde_json::Value) -> (r: serde_json::Value)
    ensures
        r == *v,
{
    v.clone()
}

/// Relies on `Value`'s `Display`, which writes compact JSON text.
#[verifier::external_body]
pub(crate) fn to_json_text(v: &serde_json::Value) -> (r: String)
    ensures
        r@ == json_text(*v),
{
    v.to_string()
}

/// Copies a sequence of values element by element.
pub(crate) fn clone_values(vs: &Vec<serde_json::Value>) -> (r: Vec<serde_json::Value>)
    ensures
        r@ == vs@,
{
    let mut r: Vec<serde_json::Value> = Vec::new();
    let mut i: usize = 0;
    while i < vs.len()
        invariant
            i <= vs@.len(),
            r@ == vs@.subrange(0, i as int),
        decreases vs@.len() - i,
    {
        r.push(clone_value(&vs[i]));
        i = i + 1;
    }
    assert(r@ =~= vs@);
    r
}

} // verus!
