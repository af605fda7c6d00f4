//! JSON documents as plain values, and the parser that reads them.

use vstd::prelude::*;

verus! {

/// A JSON value. The members of an object are held in the order in which the
/// parser hands them out; a number is held as its decimal text.
#[derive(Debug)]
pub enum Json {
    Null,
    Bool(bool),
    Number(String),
    Text(String),
    Array(Vec<Json>),
    Object(Vec<(String, Json)>),
}

/// The value of the first member of `members` whose name is `key`.
pub open spec fn spec_member(members: Seq<(String, Json)>, key: Seq<char>) -> Option<Json>
    decreases members.len(),
{
    if members.len() == 0 {
        None
    } else if members[0].0@ == key {
        Some(members[0].1)
    } else {
        spec_member(members.drop_first(), key)
    }
}

/// Looks up the member of an object by its name.
pub fn member<'a>(members: &'a Vec<(String, Json)>, key: &str) -> (found: Option<&'a Json>)
    ensures
        match found {
            Some(value) => spec_member(members@, key@) == Some(*value),
            None => spec_member(members@, key@) is None,
        },
{
    let name = key.to_owned();
    let mut i: usize = 0;
    assert(members@.skip(0) =~= members@);
    while i < members.len()
        invariant
            i <= members@.len(),
            name@ == key@,
            spec_member(members@, key@) == spec_member(members@.skip(i as int), key@),
        decreases members@.len() - i,
    {
        let ghost rest = members@.skip(i as int);
        assert(rest[0] == members@[i as int]);
        assert(rest.drop_first() =~= members@.skip(i + 1));
        if members[i].0 == name {
            return Some(&members[i].1);
        }
        i += 1;
    }
    None
}

/// What `serde_json::from_str` makes of a text: the value, or the message of
/// the error with which it rejects the text.
pub uninterp spec fn value_of_text(text: Seq<char>) -> Result<serde_json::Value, Seq<char>>;

/// The plain value that stands for a parsed value: the same tree, with each
/// number as its decimal text and each object's members in iteration order.
pub uninterp spec fn json_of_value(value: serde_json::Value) -> Json;

/// The value type of the `serde_json` crate; nothing inside it is visible here.
#[verifier::external_type_specification]
#[verifier::external_body]
pub struct ExValue(serde_json::Value);

/// The mathematical value of the parser's outcome.
pub open spec fn value_view(
    r: Result<serde_json::Value, String>,
) -> Result<serde_json::Value, Seq<char>> {
    match r {
        Ok(value) => Ok(value),
        Err(message) => Err(message@),
    }
}

/// Parses a text with `serde_json::from_str`.
///
/// Trusted: the outcome depends on the text alone, and is named
/// [`value_of_text`]; an error is handed back as its message.
#[verifier::external_body]
fn value_from_text(text: &str) -> (res: Result<serde_json::Value, String>)
    ensures
        value_view(res) == value_of_text(text@),
{
    match serde_json::from_str::<serde_json::Value>(text) {
        Ok(value) => Ok(value),
        Err(e) => Err(e.to_string()),
    }
}

/// Turns a `serde_json::Value` into a plain value, variant by variant: a
/// number by its `to_string`, an array and an object by their iterators.
///
/// Trusted: the result is the same tree, named [`json_of_value`].
#[verifier::external_body]
fn json_from_value(value: serde_json::Value) -> (json: Json)
    ensures
        json == json_of_value(value),
{
    match value {
        serde_json::Value::Null => Json::Null,
        serde_json::Value::Bool(b) => Json::Bool(b),
        serde_json::Value::Number(n) => Json::Number(n.to_string()),
        serde_json::Value::String(s) => Json::Text(s),
        serde_json::Value::Array(items) => Json::Array(
            items.into_iter().map(json_from_value).collect(),
        ),
        serde_json::Value::Object(members) => Json::Object(
            members.into_iter().map(|(name, v)| (name, json_from_value(v))).collect(),
        ),
    }
}

/// What parsing a text as JSON gives: the plain value of what the parser makes
/// of it, or the parser's message.
pub open spec fn spec_parse_json(text: Seq<char>) -> Result<Json, Seq<char>> {
    match value_of_text(text) {
        Ok(value) => Ok(json_of_value(value)),
        Err(message) => Err(message),
    }
}

/// The mathematical value of a parsing result.
pub open spec fn parsed_view(r: Result<Json, String>) -> Result<Json, Seq<char>> {
    match r {
        Ok(json) => Ok(json),
        Err(message) => Err(message@),
    }
}

/// Parses a text as JSON.
pub fn parse_json(text: &str) -> (res: Result<Json, String>)
    ensures
        parsed_view(res) == spec_parse_json(text@),
{
    match value_from_text(text) {
        Ok(value) => Ok(json_from_value(value)),
        Err(message) => Err(message),
    }
}

} // verus!
