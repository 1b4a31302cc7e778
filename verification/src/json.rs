//! JSON objects, built and written by `serde_json`.
//!
//! An object is kept as a `serde_json::Map`. What it holds is known member by
//! member; how the members are written out as text is `serde_json`'s work,
//! and the text has a name here.

use vstd::prelude::*;

verus! {

#[verifier::external_type_specification]
#[verifier::external_body]
#[verifier::reject_recursive_types(K)]
#[verifier::reject_recursive_types(V)]
pub struct ExJsonMap<K, V>(serde_json::Map<K, V>);

#[verifier::external_type_specification]
#[verifier::external_body]
pub struct ExJsonValue(serde_json::Value);

/// A JSON object with text keys.
pub type JsonObject = serde_json::Map<String, serde_json::Value>;

/// The value of a member of a JSON object.
pub enum JsonMember {
    /// A string.
    Text(Seq<char>),
    /// A whole number.
    Integer(int),
    /// A number with a fraction, by the text that `serde_json` writes for
    /// it.
    Fraction(Seq<char>),
    /// `true` or `false`.
    Flag(bool),
    /// `null`.
    Null,
}

/// The members of a JSON object, by key.
pub uninterp spec fn json_members(object: JsonObject) -> Map<Seq<char>, JsonMember>;

/// The text that `serde_json::to_string` writes for an object with the given
/// members, or `None` where it reports an error.
pub uninterp spec fn json_text(members: Map<Seq<char>, JsonMember>) -> Option<Seq<char>>;

/// No members at all.
pub open spec fn no_members() -> Map<Seq<char>, JsonMember> {
    Map::empty()
}

/// `Map::new`: an object without members.
#[verifier::external_body]
pub(crate) fn json_object() -> (r: JsonObject)
    ensures
        json_members(r) == no_members(),
{
    serde_json::Map::new()
}

/// What a JSON value is, seen as the member of an object.
pub uninterp spec fn json_value_member(value: serde_json::Value) -> JsonMember;

/// `Value::String`: a JSON string.
#[verifier::external_body]
pub(crate) fn text_value(text: &str) -> (r: serde_json::Value)
    ensures
        json_value_member(r) == JsonMember::Text(text@),
{
    serde_json::Value::String(text.to_string())
}

/// `Value::Number` made from a signed integer.
#[verifier::external_body]
pub(crate) fn integer_value(n: i64) -> (r: serde_json::Value)
    ensures
        json_value_member(r) == JsonMember::Integer(n as int),
{
    serde_json::Value::Number(n.into())
}

/// What `serde_json` reads from a decimal text as a number: a whole number
/// for a text such as `1`, a number with a fraction for one such as `1.5`,
/// and `null` for a text that is no number.
pub uninterp spec fn json_number_of(text: Seq<char>) -> JsonMember;

/// `Value::Number` of the number that `serde_json::from_str` reads from a
/// decimal text, or `Value::Null` where it reads none.
#[verifier::external_body]
pub(crate) fn decimal_value(text: &str) -> (r: serde_json::Value)
    ensures
        json_value_member(r) == json_number_of(text@),
{
    match serde_json::from_str::<serde_json::Number>(text) {
        Ok(number) => serde_json::Value::Number(number),
        Err(_) => serde_json::Value::Null,
    }
}

/// `Value::Bool`.
#[verifier::external_body]
pub(crate) fn flag_value(flag: bool) -> (r: serde_json::Value)
    ensures
        json_value_member(r) == JsonMember::Flag(flag),
{
    serde_json::Value::Bool(flag)
}

/// `Value::Null`.
#[verifier::external_body]
pub(crate) fn null_value() -> (r: serde_json::Value)
    ensures
        json_value_member(r) == JsonMember::Null,
{
    serde_json::Value::Null
}

/// `Map::insert`: sets the member `key` to a value. A member that stood
/// under the key is replaced.
#[verifier::external_body]
pub(crate) fn put_value(object: &mut JsonObject, key: &str, value: serde_json::Value)
    ensures
        json_members(*final(object)) == json_members(*old(object)).insert(
            key@,
            json_value_member(value),
        ),
{
    object.insert(key.to_string(), value);
}

/// `serde_json::to_string` of the object: its members as one line of JSON.
#[verifier::external_body]
pub(crate) fn render(object: JsonObject) -> (r: Option<String>)
    ensures
        r is Some <==> json_text(json_members(object)) is Some,
        r is Some ==> r->0@ == json_text(json_members(object))->0,
{
    match serde_json::to_string(&serde_json::Value::Object(object)) {
        Ok(text) => Some(text),
        Err(_) => None,
    }
}

} // verus!
