//! JSON values as the library reads them.
//!
//! The values themselves are `serde_json`'s. Verus sees none of their
//! insides, so this module gives them a mathematical content, [`Json`], and
//! states each accessor that the library calls in terms of it. Nothing in
//! this module is proved: it is the boundary to `serde_json`.

use vstd::prelude::*;

verus! {

/// `serde_json::Value`, carried as an opaque value.
#[verifier::external_type_specification]
#[verifier::external_body]
pub struct ExValue(serde_json::Value);

/// `serde_json::Map`, carried as an opaque value.
#[verifier::external_type_specification]
#[verifier::external_body]
#[verifier::reject_recursive_types(K)]
#[verifier::reject_recursive_types(V)]
pub struct ExMap<K, V>(serde_json::Map<K, V>);

/// The content of a JSON value.
///
/// Numbers are told apart only as far as the library reads them. `Unsigned`
/// is a number that `serde_json` holds as a `u64`: one written without sign,
/// fraction or exponent, and no greater than `u64::MAX`. `OtherNumber` is
/// every other number.
pub enum Json {
    Null,
    Bool(bool),
    Unsigned(u64),
    OtherNumber,
    Text(Seq<char>),
    Array(Seq<Json>),
    Object(Map<Seq<char>, Json>),
}

/// The content of a `serde_json::Value`.
pub uninterp spec fn json_of(value: serde_json::Value) -> Json;

/// The members of a `serde_json::Map`, by key.
pub uninterp spec fn members_of(object: serde_json::Map<String, serde_json::Value>) -> Map<
    Seq<char>,
    Json,
>;

/// The contents of a vector of values, in order.
pub open spec fn json_seq(values: Seq<serde_json::Value>) -> Seq<Json> {
    values.map_values(|v: serde_json::Value| json_of(v))
}

/// `serde_json::Value::as_str`: the text of a JSON string, and `None` for
/// every other kind of value.
pub assume_specification<'a>[ serde_json::Value::as_str ](value: &'a serde_json::Value) -> (r:
    Option<&'a str>)
    ensures
        r matches Some(text) ==> json_of(*value) == Json::Text(text@),
        r is None ==> !(json_of(*value) is Text),
;

/// `serde_json::Value::as_u64`: the number, where the value is a number held
/// as a `u64`, and `None` for every other value.
pub assume_specification[ serde_json::Value::as_u64 ](value: &serde_json::Value) -> (r: Option<
    u64,
>)
    ensures
        r matches Some(n) ==> json_of(*value) == Json::Unsigned(n),
        r is None ==> !(json_of(*value) is Unsigned),
;

/// `serde_json::Value::is_null`: whether the value is JSON's `null`.
pub assume_specification[ serde_json::Value::is_null ](value: &serde_json::Value) -> (r: bool)
    ensures
        r == (json_of(*value) is Null),
;

/// `serde_json::Value::as_array`: the elements of a JSON array, and `None`
/// for every other kind of value.
pub assume_specification<'a>[ serde_json::Value::as_array ](value: &'a serde_json::Value) -> (r:
    Option<&'a Vec<serde_json::Value>>)
    ensures
        r matches Some(items) ==> json_of(*value) == Json::Array(json_seq(items@)),
        r is None ==> !(json_of(*value) is Array),
;

/// `serde_json::Value::as_object`: the map of a JSON object, and `None` for
/// every other kind of value.
pub assume_specification<'a>[ serde_json::Value::as_object ](value: &'a serde_json::Value) -> (r:
    Option<&'a serde_json::Map<String, serde_json::Value>>)
    ensures
        r matches Some(object) ==> json_of(*value) == Json::Object(members_of(*object)),
        r is None ==> !(json_of(*value) is Object),
;

/// `serde_json::Map::get` with a string key: the value stored under the key,
/// and `None` where the map has no such key.
#[verifier::external_body]
pub(crate) fn member<'a>(
    object: &'a serde_json::Map<String, serde_json::Value>,
    key: &str,
) -> (r: Option<&'a serde_json::Value>)
    ensures
        r matches Some(value) ==> members_of(*object).contains_key(key@) && members_of(
            *object,
        )[key@] == json_of(*value),
        r is None ==> !members_of(*object).contains_key(key@),
{
    object.get(key)
}

/// `Clone::clone` of a `serde_json::Map`: a map with the same members.
#[verifier::external_body]
pub(crate) fn clone_object(object: &serde_json::Map<String, serde_json::Value>) -> (r:
    serde_json::Map<String, serde_json::Value>)
    ensures
        members_of(r) == members_of(*object),
{
    object.clone()
}

/// The text stored under a key: `Some` where the member is there and is a
/// JSON string, `None` where it is missing or of another kind.
pub open spec fn member_text(members: Map<Seq<char>, Json>, key: Seq<char>) -> Option<Seq<char>> {
    if members.contains_key(key) {
        match members[key] {
            Json::Text(text) => Some(text),
            _ => None,
        }
    } else {
        None
    }
}

/// The text stored under a key, if the member is there and is a JSON string.
pub fn text_member<'a>(object: &'a serde_json::Map<String, serde_json::Value>, key: &str) -> (r:
    Option<&'a str>)
    ensures
        match r {
            Some(text) => member_text(members_of(*object), key@) == Some(text@),
            None => member_text(members_of(*object), key@) is None,
        },
{
    match member(object, key) {
        Some(value) => value.as_str(),
        None => None,
    }
}

} // verus!
