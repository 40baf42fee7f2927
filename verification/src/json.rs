//! JSON documents, built and written by `serde_json`.
//!
//! Verus cannot look inside a `serde_json::Value`. What one holds is named
//! here as a [`Json`] term, and each call into `serde_json` is given a
//! contract over that term. These contracts are taken on trust: they restate
//! what the crate's source does and are not proved.

use vstd::prelude::*;

verus! {

/// A JSON document as a mathematical term.
pub enum Json {
    Null,
    Bool(bool),
    /// A number without fraction or exponent.
    Integer(int),
    /// Any other number, by the literal that writes it.
    Real(Seq<char>),
    Text(Seq<char>),
    List(Seq<Json>),
    /// An object: its member names and what each one holds. Members have no
    /// order.
    Object(Map<Seq<char>, Json>),
}

/// `serde_json::Value`, carried as it is: nothing inside it is visible here.
#[verifier::external_type_specification]
#[verifier::external_body]
pub struct ExValue(serde_json::Value);

/// `serde_json::Map`, carried as it is: nothing inside it is visible here.
#[verifier::external_type_specification]
#[verifier::external_body]
#[verifier::reject_recursive_types(K)]
#[verifier::reject_recursive_types(V)]
pub struct ExMap<K, V>(serde_json::Map<K, V>);

/// The document that a `serde_json::Value` holds.
pub uninterp spec fn json_of(value: serde_json::Value) -> Json;

/// The members that a `serde_json::Map` holds.
pub uninterp spec fn members_of(object: serde_json::Map<String, serde_json::Value>) -> Map<
    Seq<char>,
    Json,
>;

/// The compact text that `serde_json` writes for a document: no whitespace
/// between tokens, members in the order of their names. That the text
/// depends on the document alone rests on the crate's sorted map, which is
/// what it uses unless its `preserve_order` feature is switched on.
pub uninterp spec fn json_text(document: Json) -> Seq<char>;

/// `serde_json::Map::new`: a map without members.
#[verifier::external_body]
pub(crate) fn new_object() -> (object: serde_json::Map<String, serde_json::Value>)
    ensures
        members_of(object) =~= Map::empty(),
{
    serde_json::Map::new()
}

/// `serde_json::Map::insert`: afterwards `key` holds `value`, whether or not
/// the map had that key, and every other member is as it was.
#[verifier::external_body]
pub(crate) fn insert_member(
    object: &mut serde_json::Map<String, serde_json::Value>,
    key: &str,
    value: serde_json::Value,
)
    ensures
        members_of(*final(object)) == members_of(*old(object)).insert(key@, json_of(value)),
{
    object.insert(key.to_owned(), value);
}

/// `From<bool> for serde_json::Value`: the value is that boolean.
#[verifier::external_body]
pub(crate) fn bool_value(flag: bool) -> (value: serde_json::Value)
    ensures
        json_of(value) == Json::Bool(flag),
{
    serde_json::Value::from(flag)
}

/// `From<u64> for serde_json::Value`: the value is that integer.
#[verifier::external_body]
pub(crate) fn integer_value(number: u64) -> (value: serde_json::Value)
    ensures
        json_of(value) == Json::Integer(number as int),
{
    serde_json::Value::from(number)
}

/// `From<&str> for serde_json::Value`: the value is a string with the same
/// characters.
#[verifier::external_body]
pub(crate) fn text_value(text: &str) -> (value: serde_json::Value)
    ensures
        json_of(value) == Json::Text(text@),
{
    serde_json::Value::from(text)
}

/// `From<serde_json::Map<String, Value>> for serde_json::Value`: the value is
/// an object with the map's members.
#[verifier::external_body]
pub(crate) fn object_value(object: serde_json::Map<String, serde_json::Value>) -> (value:
    serde_json::Value)
    ensures
        json_of(value) == Json::Object(members_of(object)),
{
    serde_json::Value::from(object)
}

/// `to_string` on a `serde_json::Value`, which goes through its `Display`:
/// the compact text of the document that the value holds.
#[verifier::external_body]
pub(crate) fn write_value(value: &serde_json::Value) -> (text: String)
    ensures
        text@ == json_text(json_of(*value)),
{
    value.to_string()
}

} // verus!
