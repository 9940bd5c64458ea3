//! JSON documents as mathematical values, and the calls into `serde_json`
//! that read and build them.
//!
//! The documents themselves are `serde_json::Value`s. Verus cannot look inside
//! one, so [`content`] names what a value holds and every function in this
//! file says, in terms of [`content`], what the corresponding `serde_json`
//! call does. None of these statements is proved: each is read off the source
//! of `serde_json`.

use serde_json::Value;
use vstd::prelude::*;

verus! {

/// A JSON document.
///
/// Numbers are told apart only as far as the records need it: a number is
/// either a whole number from 0 to `u64::MAX` written without fraction or
/// exponent, or it is something else.
pub enum Json {
    Null,
    Bool(bool),
    Natural(u64),
    OtherNumber,
    Text(Seq<char>),
    Array(Seq<Json>),
    Object(Map<Seq<char>, Json>),
}

impl Json {
    /// The member of an object under a name; `None` if the document is no
    /// object or has no member of that name.
    pub open spec fn member(self, name: Seq<char>) -> Option<Json> {
        match self {
            Json::Object(members) => if members.contains_key(name) {
                Some(members[name])
            } else {
                None
            },
            _ => None,
        }
    }

    /// The characters of a string; `None` for any other document.
    pub open spec fn text(self) -> Option<Seq<char>> {
        match self {
            Json::Text(chars) => Some(chars),
            _ => None,
        }
    }

    /// The value of a whole number from 0 to `u64::MAX`; `None` for any other
    /// document.
    pub open spec fn natural(self) -> Option<u64> {
        match self {
            Json::Natural(n) => Some(n),
            _ => None,
        }
    }

    /// The elements of an array; `None` for any other document.
    pub open spec fn elements(self) -> Option<Seq<Json>> {
        match self {
            Json::Array(items) => Some(items),
            _ => None,
        }
    }

    /// The members of an object; `None` for any other document.
    pub open spec fn members(self) -> Option<Map<Seq<char>, Json>> {
        match self {
            Json::Object(members) => Some(members),
            _ => None,
        }
    }

    /// The object with one member more, or with that member replaced.
    pub open spec fn with_member(self, name: Seq<char>, value: Json) -> Json
        recommends
            self is Object,
    {
        Json::Object(self->Object_0.insert(name, value))
    }
}

/// The documents that a row of values holds, in the same order.
pub open spec fn contents(values: Seq<Value>) -> Seq<Json> {
    Seq::new(values.len(), |i: int| content(values[i]))
}

/// Whether a row of named values lists exactly the members of an object:
/// every name once, each with the document that the object has under it.
pub open spec fn lists_members(
    entries: Seq<(&String, &Value)>,
    members: Map<Seq<char>, Json>,
) -> bool {
    &&& forall|i: int, j: int|
        0 <= i < j < entries.len() ==> (#[trigger] entries[i]).0@ != (#[trigger] entries[j]).0@
    &&& forall|i: int|
        0 <= i < entries.len() ==> members.contains_key((#[trigger] entries[i]).0@)
            && members[entries[i].0@] == content(*entries[i].1)
    &&& forall|name: Seq<char>| #[trigger]
        members.contains_key(name) ==> exists|i: int|
            0 <= i < entries.len() && (#[trigger] entries[i]).0@ == name
}

#[verifier::external_type_specification]
#[verifier::external_body]
pub struct ExValue(serde_json::Value);

#[verifier::external_type_specification]
#[verifier::external_body]
pub struct ExJsonError(serde_json::Error);

/// The document that a `serde_json::Value` holds.
pub uninterp spec fn content(value: Value) -> Json;

/// The document that `serde_json::from_str::<Value>` reads from a text, or
/// `None` where it reports an error.
pub uninterp spec fn parsed(text: Seq<char>) -> Option<Json>;

/// `serde_json::from_str::<Value>`: the outcome depends on the text alone, and
/// [`parsed`] is its name.
#[verifier::external_body]
pub(crate) fn parse(text: &str) -> (outcome: Result<Value, serde_json::Error>)
    ensures
        match outcome {
            Ok(value) => parsed(text@) == Some(content(value)),
            Err(_) => parsed(text@) is None,
        },
{
    serde_json::from_str::<Value>(text)
}

/// `Value::get` with a string key: the member of that name if the value is an
/// object that has one, nothing otherwise.
#[verifier::external_body]
pub(crate) fn member<'a>(value: &'a Value, name: &str) -> (found: Option<&'a Value>)
    ensures
        match content(*value).member(name@) {
            Some(document) => found matches Some(m) && content(*m) == document,
            None => found is None,
        },
{
    value.get(name)
}

/// `Value::as_str`: the characters of a JSON string, nothing for any other
/// document.
#[verifier::external_body]
pub(crate) fn as_text(value: &Value) -> (found: Option<&str>)
    ensures
        match content(*value).text() {
            Some(chars) => found matches Some(text) && text@ == chars,
            None => found is None,
        },
{
    value.as_str()
}

/// `Value::as_u64`: the number if the document is a whole number from 0 to
/// `u64::MAX`, nothing otherwise.
#[verifier::external_body]
pub(crate) fn as_natural(value: &Value) -> (found: Option<u64>)
    ensures
        found == content(*value).natural(),
{
    value.as_u64()
}

/// `Value::as_array`: the elements of a JSON array in their order, nothing
/// for any other document.
#[verifier::external_body]
pub(crate) fn as_elements(value: &Value) -> (found: Option<&Vec<Value>>)
    ensures
        match content(*value).elements() {
            Some(items) => found matches Some(list) && contents(list@) == items,
            None => found is None,
        },
{
    value.as_array()
}

/// `Value::as_object` and `Map::iter`: the members of a JSON object, every
/// name once with its value, nothing for any other document. The order in
/// which the members come is left open.
#[verifier::external_body]
pub(crate) fn as_members(value: &Value) -> (found: Option<Vec<(&String, &Value)>>)
    ensures
        match content(*value).members() {
            Some(members) => found matches Some(list) && lists_members(list@, members),
            None => found is None,
        },
{
    value.as_object().map(|object| object.iter().collect())
}

/// `Value::Object` of `Map::new`: an object without members.
#[verifier::external_body]
pub(crate) fn empty_object() -> (value: Value)
    ensures
        content(value) == Json::Object(Map::empty()),
{
    Value::Object(serde_json::Map::new())
}

/// `Map::insert` on the map of an object: the object gains the member, or
/// has it replaced where the name was there before.
#[verifier::external_body]
pub(crate) fn set_member(object: &mut Value, name: &str, value: Value)
    requires
        content(*old(object)) is Object,
    ensures
        content(*final(object)) == content(*old(object)).with_member(name@, content(value)),
{
    if let Value::Object(members) = object {
        members.insert(name.to_owned(), value);
    }
}

/// `Value::from` of a string slice: the JSON string with those characters.
#[verifier::external_body]
pub(crate) fn text_value(text: &str) -> (value: Value)
    ensures
        content(value) == Json::Text(text@),
{
    Value::from(text)
}

/// `Value::from` of a `u32`: the JSON number of that value.
#[verifier::external_body]
pub(crate) fn natural_value(n: u32) -> (value: Value)
    ensures
        content(value) == Json::Natural(n as u64),
{
    Value::from(n)
}

} // verus!
