//! What is read out of a JSON value.

use vstd::prelude::*;

verus! {

/// A JSON value of `serde_json`, opaque here.
#[verifier::external_type_specification]
#[verifier::external_body]
pub struct ExValue(serde_json::Value);

/// What a JSON value holds.
pub enum Json {
    Null,
    Bool(bool),
    /// A number: its value, where it is an integer between zero and `u64::MAX`,
    /// and how it is written.
    Number { unsigned: Option<u64>, shown: Seq<char> },
    Text(Seq<char>),
    Array(Seq<Json>),
    Object(Map<Seq<char>, Json>),
}

/// What a JSON value of `serde_json` holds.
pub uninterp spec fn json_content(value: serde_json::Value) -> Json;

/// The text that `Display` writes of a value that holds this.
pub uninterp spec fn json_display(content: Json) -> Seq<char>;

/// The text that `Debug` writes of a value that holds this.
pub uninterp spec fn json_debug(content: Json) -> Seq<char>;

/// The member of an object under a key; null where there is none.
pub open spec fn json_member(content: Json, key: Seq<char>) -> Json {
    match content {
        Json::Object(members) => if members.dom().contains(key) {
            members[key]
        } else {
            Json::Null
        },
        _ => Json::Null,
    }
}

/// The value of a number, where it is an integer between zero and `u64::MAX`.
pub open spec fn json_u64(content: Json) -> Option<u64> {
    match content {
        Json::Number { unsigned, .. } => unsigned,
        _ => None,
    }
}

/// The text of a string.
pub open spec fn json_str(content: Json) -> Option<Seq<char>> {
    match content {
        Json::Text(text) => Some(text),
        _ => None,
    }
}

/// The text of an optional string.
pub open spec fn text_of(s: Option<String>) -> Option<Seq<char>> {
    match s {
        Some(s) => Some(s@),
        None => None,
    }
}

/// Calls `<serde_json::Value as Index<&str>>::index`: the member of an object
/// under a key. It never panics: a missing key and a value that is no object
/// both give JSON null.
#[verifier::external_body]
pub(crate) fn member<'a>(value: &'a serde_json::Value, key: &str) -> (found: &'a serde_json::Value)
    ensures
        json_content(*found) == json_member(json_content(*value), key@),
{
    &value[key]
}

/// Calls `serde_json::Value::as_u64`: the number, where the value is an integer
/// between zero and `u64::MAX`.
#[verifier::external_body]
pub(crate) fn as_u64(value: &serde_json::Value) -> (number: Option<u64>)
    ensures
        number == json_u64(json_content(*value)),
{
    value.as_u64()
}

/// Calls `serde_json::Value::as_str`: the text, where the value is a string.
#[verifier::external_body]
pub(crate) fn as_str(value: &serde_json::Value) -> (text: Option<String>)
    ensures
        text_of(text) == json_str(json_content(*value)),
{
    match value.as_str() {
        Some(text) => Some(text.to_string()),
        None => None,
    }
}

/// Calls `<serde_json::Value as Display>::fmt`, which writes the value as
/// compact JSON: a function of what the value holds.
#[verifier::external_body]
pub(crate) fn display(value: &serde_json::Value) -> (text: String)
    ensures
        text@ == json_display(json_content(*value)),
{
    value.to_string()
}

/// Calls `<serde_json::Value as Debug>::fmt`: a function of what the value
/// holds.
#[verifier::external_body]
pub(crate) fn debug(value: &serde_json::Value) -> (text: String)
    ensures
        text@ == json_debug(json_content(*value)),
{
    format!("{:?}", value)
}

/// The chain height in a `getblockchaininfo` reply: its `blocks` member.
pub fn read_blocks(info: &serde_json::Value) -> (blocks: Option<u64>)
    ensures
        blocks == json_u64(json_member(json_content(*info), "blocks"@)),
        match json_content(*info) {
            Json::Object(members) => {
                &&& (members.dom().contains("blocks"@) && members["blocks"@] is Number) ==> blocks
                    == members["blocks"@]->unsigned
                &&& !(members.dom().contains("blocks"@) && members["blocks"@] is Number)
                    ==> blocks is None
            },
            _ => blocks is None,
        },
{
    as_u64(member(info, "blocks"))
}

/// The header format in a verbose `getblockheader` reply: its `headerv` member.
pub fn read_headerv(header: &serde_json::Value) -> (headerv: Option<u64>)
    ensures
        headerv == json_u64(json_member(json_content(*header), "headerv"@)),
        match json_content(*header) {
            Json::Object(members) => {
                &&& (members.dom().contains("headerv"@) && members["headerv"@] is Number) ==> headerv
                    == members["headerv"@]->unsigned
                &&& !(members.dom().contains("headerv"@) && members["headerv"@] is Number)
                    ==> headerv is None
            },
            _ => headerv is None,
        },
{
    as_u64(member(header, "headerv"))
}

/// The serialized header in a raw `getblockheader` reply: the reply itself.
pub fn read_header_text(reply: &serde_json::Value) -> (text: Option<String>)
    ensures
        text_of(text) == json_str(json_content(*reply)),
        match json_content(*reply) {
            Json::Text(held) => text matches Some(text) && text@ == held,
            _ => text is None,
        },
{
    as_str(reply)
}

/// A member is what its object holds under its key, and null where there is
/// none; a value that is no object has no members.
pub proof fn law_member(members: Map<Seq<char>, Json>, key: Seq<char>, value: Json, other: Json)
    requires
        other !is Object,
    ensures
        json_member(Json::Object(members.insert(key, value)), key) == value,
        json_member(Json::Object(members.remove(key)), key) is Null,
        json_member(other, key) is Null,
{
}

/// A number is read as its value, and a text as it stands; nothing else is read
/// as either.
pub proof fn law_scalars(number: Option<u64>, shown: Seq<char>, text: Seq<char>, other: Json)
    requires
        other !is Number,
        other !is Text,
    ensures
        json_u64(Json::Number { unsigned: number, shown }) == number,
        json_u64(Json::Text(text)) is None,
        json_u64(other) is None,
        json_str(Json::Text(text)) == Some(text),
        json_str(Json::Number { unsigned: number, shown }) is None,
        json_str(other) is None,
{
}

/// The view of an optional text keeps the text.
pub proof fn law_text_view(text: String)
    ensures
        text_of(Some(text)) == Some(text@),
        text_of(None) is None,
{
}

} // verus!
