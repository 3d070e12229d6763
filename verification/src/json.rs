//! JSON values: what a `serde_json::Value` holds, and the calls made on it.
use crate::text::decimal;
use serde_json::Value;
use vstd::prelude::*;

verus! {

/// What a JSON value holds. A number that is not stored as an integer is held by its printed text,
/// which tells it from every other such number.
pub enum Json {
    Null,
    Bool(bool),
    Int(int),
    Float(Seq<char>),
    Text(Seq<char>),
    Array(Seq<Json>),
    Object(Map<Seq<char>, Json>),
}

/// The member of an object under a key. Nothing but an object has members.
pub open spec fn member_of(json: Json, key: Seq<char>) -> Option<Json> {
    match json {
        Json::Object(members) => if members.contains_key(key) {
            Some(members[key])
        } else {
            None
        },
        _ => None,
    }
}

/// The items of an array, and none where there is no array.
pub open spec fn items_of(json: Option<Json>) -> Seq<Json> {
    match json {
        Some(Json::Array(items)) => items,
        _ => Seq::empty(),
    }
}

/// The text that a value holds, and the empty text where it holds none.
pub open spec fn text_or_empty(json: Option<Json>) -> Seq<char> {
    match json {
        Some(Json::Text(text)) => text,
        _ => Seq::empty(),
    }
}

/// The integer that a value holds, where it is one that an `i64` holds.
pub open spec fn int_of(json: Option<Json>) -> Option<i64> {
    match json {
        Some(Json::Int(n)) => if i64::MIN <= n <= i64::MAX {
            Some(n as i64)
        } else {
            None
        },
        _ => None,
    }
}

/// Whether a value is the truth value `true`.
pub open spec fn is_true(json: Option<Json>) -> bool {
    json == Some(Json::Bool(true))
}

pub open spec fn no_members() -> Map<Seq<char>, Json> {
    Map::empty()
}

// ---------------------------------------------------------------------------------------------
// serde_json
// ---------------------------------------------------------------------------------------------
/// `serde_json::Value`, whose contents go by the name `json_of`.
#[verifier::external_type_specification]
#[verifier::external_body]
pub struct ExValue(serde_json::Value);

/// `serde_json::Map`, whose contents go by the name `members_of`.
#[verifier::external_type_specification]
#[verifier::external_body]
#[verifier::reject_recursive_types(K)]
#[verifier::reject_recursive_types(V)]
pub struct ExMembers<K, V>(serde_json::Map<K, V>);

/// What a `serde_json::Value` holds.
pub uninterp spec fn json_of(value: serde_json::Value) -> Json;

/// What a `serde_json::Map` holds: each of its keys with what the value under it holds.
pub uninterp spec fn members_of(members: serde_json::Map<String, Value>) -> Map<Seq<char>, Json>;

/// The compact JSON text that `serde_json::Value` displays as, with the members of an object in the
/// order of their keys.
pub uninterp spec fn json_text(json: Json) -> Seq<char>;

/// What each of some values holds.
pub open spec fn jsons_of(values: Seq<Value>) -> Seq<Json> {
    values.map_values(|value: Value| json_of(value))
}

/// `Value::as_array` gives the items of an array, and nothing for any other value.
pub assume_specification [ serde_json::Value::as_array ](value: &Value) -> (items: Option<
    &Vec<Value>,
>)
    ensures
        items is Some == (json_of(*value) is Array),
        items matches Some(v) ==> json_of(*value) == Json::Array(jsons_of(v@)),
;

/// `Value::as_object` gives the members of an object, and nothing for any other value.
pub assume_specification [ serde_json::Value::as_object ](value: &Value) -> (members: Option<
    &serde_json::Map<String, Value>,
>)
    ensures
        members is Some == (json_of(*value) is Object),
        members matches Some(m) ==> json_of(*value) == Json::Object(members_of(*m)),
;

/// `Value::as_object_mut` gives the members of an object to change in place, and nothing for any
/// other value.
pub assume_specification [ serde_json::Value::as_object_mut ](value: &mut Value) -> (members: Option<
    &mut serde_json::Map<String, Value>,
>)
    ensures
        members is Some == (json_of(*old(value)) is Object),
        members matches Some(m) ==> json_of(*old(value)) == Json::Object(members_of(*m)) && json_of(
            *final(value),
        ) == Json::Object(members_of(*final(m))),
        members is None ==> *final(value) == *old(value),
;

/// `Value::as_str` gives the text of a string, and nothing for any other value.
pub assume_specification [ serde_json::Value::as_str ](value: &Value) -> (text: Option<&str>)
    ensures
        text is Some == (json_of(*value) is Text),
        text matches Some(s) ==> json_of(*value) == Json::Text(s@),
;

/// `Value::as_bool` gives the truth value of a boolean, and nothing for any other value.
pub assume_specification [ serde_json::Value::as_bool ](value: &Value) -> (truth: Option<bool>)
    ensures
        truth is Some == (json_of(*value) is Bool),
        truth matches Some(b) ==> json_of(*value) == Json::Bool(b),
;

/// `Value::as_i64` gives the number of a value stored as an integer, where an `i64` holds it, and
/// nothing for any other value.
pub assume_specification [ serde_json::Value::as_i64 ](value: &Value) -> (number: Option<i64>)
    ensures
        number == int_of(Some(json_of(*value))),
;

/// `Value::as_u64` gives the number of a value stored as an integer, where a `u64` holds it, and
/// nothing for any other value.
pub assume_specification [ serde_json::Value::as_u64 ](value: &Value) -> (number: Option<u64>)
    ensures
        number is Some == (json_of(*value) matches Json::Int(n) && 0 <= n <= u64::MAX),
        number matches Some(u) ==> json_of(*value) == Json::Int(u as int),
;

/// `Value::is_null` tells the null value.
pub assume_specification [ serde_json::Value::is_null ](value: &Value) -> (null: bool)
    ensures
        null == (json_of(*value) is Null),
;

/// `Value::is_f64` tells the numbers that are not stored as integers.
pub assume_specification [ serde_json::Value::is_f64 ](value: &Value) -> (float: bool)
    ensures
        float == (json_of(*value) is Float),
;

/// The clone of a `serde_json::Value` holds what the value holds.
pub assume_specification [ <serde_json::Value as Clone>::clone ](value: &Value) -> (copy: Value)
    ensures
        json_of(copy) == json_of(*value),
;

/// `Map::new` makes a map without members.
pub assume_specification [ serde_json::Map::<String, Value>::new ]() -> (members: serde_json::Map<
    String,
    Value,
>)
    ensures
        members_of(members) == no_members(),
;

/// `Map::insert` puts a value under a key, in place of the one that was there, which it gives back.
pub assume_specification [ serde_json::Map::<String, Value>::insert ](
    members: &mut serde_json::Map<String, Value>,
    k: String,
    v: Value,
) -> (previous: Option<Value>)
    ensures
        members_of(*final(members)) == members_of(*old(members)).insert(k@, json_of(v)),
        previous is Some == members_of(*old(members)).contains_key(k@),
        previous matches Some(p) ==> json_of(p) == members_of(*old(members))[k@],
;

/// `Value::get` with a key gives the member of an object under that key, and nothing where the
/// value is no object or has no such member.
#[verifier::external_body]
pub(crate) fn member<'a>(value: &'a Value, key: &str) -> (found: Option<&'a Value>)
    ensures
        found is Some == (member_of(json_of(*value), key@) is Some),
        found matches Some(v) ==> member_of(json_of(*value), key@) == Some(json_of(*v)),
{
    value.get(key)
}

/// `Map::keys` gives each key of a map once.
#[verifier::external_body]
pub(crate) fn member_keys(members: &serde_json::Map<String, Value>) -> (keys: Vec<String>)
    ensures
        forall|key: Seq<char>|
            members_of(*members).contains_key(key) == exists|i: int|
                0 <= i < keys@.len() && #[trigger] keys@[i]@ == key,
        forall|i: int, j: int| 0 <= i < j < keys@.len() ==> keys@[i]@ != keys@[j]@,
{
    members.keys().cloned().collect()
}

/// `Value::String` holds the text that it is made of.
#[verifier::external_body]
pub(crate) fn text_value(text: String) -> (value: Value)
    ensures
        json_of(value) == Json::Text(text@),
{
    Value::String(text)
}

/// `Value::Bool` holds the truth value that it is made of.
#[verifier::external_body]
pub(crate) fn bool_value(truth: bool) -> (value: Value)
    ensures
        json_of(value) == Json::Bool(truth),
{
    Value::Bool(truth)
}

/// `Value::from` an `i64` stores the number as an integer.
#[verifier::external_body]
pub(crate) fn int_value(number: i64) -> (value: Value)
    ensures
        json_of(value) == Json::Int(number as int),
{
    Value::from(number)
}

/// `Value::Array` holds the items that it is made of, in their order.
#[verifier::external_body]
pub(crate) fn array_value(items: Vec<Value>) -> (value: Value)
    ensures
        json_of(value) == Json::Array(jsons_of(items@)),
{
    Value::Array(items)
}

/// `Value::Object` holds the members that it is made of.
#[verifier::external_body]
pub(crate) fn object_value(members: serde_json::Map<String, Value>) -> (value: Value)
    ensures
        json_of(value) == Json::Object(members_of(members)),
{
    Value::Object(members)
}

/// The display of a `serde_json::Value` is compact JSON text, which goes by the name `json_text`.
/// A truth value is one word, a number stored as an integer is its decimal digits, and any other
/// number is the text that stands for it.
#[verifier::external_body]
pub(crate) fn value_text(value: &Value) -> (text: String)
    ensures
        text@ == json_text(json_of(*value)),
        json_of(*value) == Json::Bool(true) ==> text@ == "true"@,
        json_of(*value) == Json::Bool(false) ==> text@ == "false"@,
        json_of(*value) matches Json::Int(n) ==> text@ == decimal(n),
        json_of(*value) matches Json::Float(t) ==> text@ == t,
{
    value.to_string()
}

// ---------------------------------------------------------------------------------------------
// Reading and building
// ---------------------------------------------------------------------------------------------
/// The items of the array under a key, where there is one.
pub fn member_items<'a>(value: &'a Value, key: &str) -> (items: Option<&'a Vec<Value>>)
    ensures
        items is Some == (member_of(json_of(*value), key@) matches Some(Json::Array(_))),
        items matches Some(v) ==> member_of(json_of(*value), key@) == Some(
            Json::Array(jsons_of(v@)),
        ),
{
    match member(value, key) {
        Some(found) => found.as_array(),
        None => None,
    }
}

/// The text under a key, and the empty text where there is none.
pub fn member_text(value: &Value, key: &str) -> (text: String)
    ensures
        text@ == text_or_empty(member_of(json_of(*value), key@)),
{
    match member(value, key) {
        Some(found) => match found.as_str() {
            Some(text) => text.to_owned(),
            None => String::new(),
        },
        None => String::new(),
    }
}

/// The text under a key, where there is one.
pub fn member_text_option(value: &Value, key: &str) -> (text: Option<String>)
    ensures
        text is Some == (member_of(json_of(*value), key@) matches Some(Json::Text(_))),
        text matches Some(s) ==> member_of(json_of(*value), key@) == Some(Json::Text(s@)),
{
    match member(value, key) {
        Some(found) => match found.as_str() {
            Some(text) => Some(text.to_owned()),
            None => None,
        },
        None => None,
    }
}

/// Whether the member under a key is the truth value `true`.
pub fn member_is_true(value: &Value, key: &str) -> (truth: bool)
    ensures
        truth == is_true(member_of(json_of(*value), key@)),
{
    match member(value, key) {
        Some(found) => match found.as_bool() {
            Some(truth) => truth,
            None => false,
        },
        None => false,
    }
}

/// The integer under a key, where an `i64` holds it.
pub fn member_int(value: &Value, key: &str) -> (number: Option<i64>)
    ensures
        number == int_of(member_of(json_of(*value), key@)),
{
    match member(value, key) {
        Some(found) => found.as_i64(),
        None => None,
    }
}

/// Puts a text under a key.
pub fn put_text(members: &mut serde_json::Map<String, Value>, key: &str, text: &str)
    ensures
        members_of(*final(members)) == members_of(*old(members)).insert(key@, Json::Text(text@)),
{
    let _ = members.insert(key.to_owned(), text_value(text.to_owned()));
}

/// Puts a whole number under a key.
pub fn put_int(members: &mut serde_json::Map<String, Value>, key: &str, number: i64)
    ensures
        members_of(*final(members)) == members_of(*old(members)).insert(
            key@,
            Json::Int(number as int),
        ),
{
    let _ = members.insert(key.to_owned(), int_value(number));
}

/// Puts a truth value under a key.
pub fn put_bool(members: &mut serde_json::Map<String, Value>, key: &str, truth: bool)
    ensures
        members_of(*final(members)) == members_of(*old(members)).insert(key@, Json::Bool(truth)),
{
    let _ = members.insert(key.to_owned(), bool_value(truth));
}

} // verus!
