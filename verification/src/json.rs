//! Reading JSON messages.

use serde_json::Value;
use vstd::prelude::*;

verus! {

/// `serde_json::Value`, a parsed JSON document.
#[verifier::external_type_specification]
#[verifier::external_body]
pub struct ExValue(serde_json::Value);

/// A JSON document.
pub enum Json {
    Null,
    Bool(bool),
    Number(Seq<char>),
    Text(Seq<char>),
    Array(Seq<Json>),
    Object(Map<Seq<char>, Json>),
}

impl Json {
    /// The member of an object that goes by `key`.
    pub open spec fn member(self, key: Seq<char>) -> Option<Json> {
        match self {
            Json::Object(members) => if members.dom().contains(key) {
                Some(members[key])
            } else {
                None
            },
            _ => None,
        }
    }
}

/// The document that a value holds.
pub uninterp spec fn json_of(value: Value) -> Json;

/// What `serde_json::from_str` reads from `text`: `None` where it reports an error.
pub uninterp spec fn parsed_json(text: Seq<char>) -> Option<Json>;

/// `serde_json::from_str` into a `Value`: the document depends on the text alone.
#[verifier::external_body]
pub(crate) fn parse_json(text: &str) -> (r: Option<Value>)
    ensures
        match r {
            Some(value) => parsed_json(text@) == Some(json_of(value)),
            None => parsed_json(text@) is None,
        },
{
    serde_json::from_str(text).ok()
}

/// `serde_json::Value::get` with a string finds the member of an object that goes by
/// that key, and nothing in a value that is no object or lacks the key.
#[verifier::external_body]
pub(crate) fn json_get<'a>(value: &'a Value, key: &str) -> (r: Option<&'a Value>)
    ensures
        match r {
            Some(member) => json_of(*value).member(key@) == Some(json_of(*member)),
            None => json_of(*value).member(key@) is None,
        },
{
    value.get(key)
}

/// `serde_json::Value::is_object` tells objects from all other values.
#[verifier::external_body]
pub(crate) fn json_is_object(value: &Value) -> (r: bool)
    ensures
        r == (json_of(*value) is Object),
{
    value.is_object()
}

/// `==` between a `serde_json::Value` and a string holds for a JSON string with the
/// same characters, and for no other value.
#[verifier::external_body]
pub(crate) fn json_is_text(value: &Value, text: &str) -> (r: bool)
    ensures
        r == (json_of(*value) == Json::Text(text@)),
{
    value == text
}

/// A member is looked up in an object under its key, and in nothing else.
pub proof fn law_member_is_looked_up(json: Json, members: Map<Seq<char>, Json>, key: Seq<char>)
    ensures
        members.dom().contains(key) ==> Json::Object(members).member(key) == Some(members[key]),
        !members.dom().contains(key) ==> Json::Object(members).member(key) is None,
        json !is Object ==> json.member(key) is None,
{
}

} // verus!
