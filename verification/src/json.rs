//! JSON documents as the engine reads and writes them. Parsing and string
//! encoding are `serde_json`'s; the functions here state what the engine
//! relies on and build the rest on top.

use vstd::prelude::*;
use vstd::string::*;

verus! {

/// What the engine reads of a JSON value.
pub ghost enum JsonTree {
    Null,
    Bool(bool),
    /// A number; its value where `serde_json` holds it as an unsigned
    /// integer.
    Number(Option<u64>),
    Text(Seq<char>),
    Array(Seq<JsonTree>),
    Object(Map<Seq<char>, JsonTree>),
}

#[verifier::external_type_specification]
#[verifier::external_body]
pub struct ExJsonValue(serde_json::Value);

#[verifier::external_type_specification]
#[verifier::external_body]
pub struct ExJsonError(serde_json::Error);

/// What a parsed JSON value holds.
pub uninterp spec fn json_tree(value: serde_json::Value) -> JsonTree;

/// The message of a JSON error.
pub uninterp spec fn json_error_message(error: serde_json::Error) -> Seq<char>;

/// The outcome of parsing a text as one JSON value: what the value holds, or
/// the parser's message.
pub uninterp spec fn json_parse(text: Seq<char>) -> Result<JsonTree, Seq<char>>;

/// The JSON string literal that encodes a text.
pub uninterp spec fn json_text_literal(text: Seq<char>) -> Seq<char>;

/// The member `key` of `tree` where `tree` is an object that has it.
pub open spec fn member(tree: JsonTree, key: Seq<char>) -> Option<JsonTree> {
    match tree {
        JsonTree::Object(members) => if members.contains_key(key) {
            Some(members[key])
        } else {
            None
        },
        _ => None,
    }
}

/// The text held by the member `key` of `tree`, where `tree` is an object
/// whose member `key` is a string.
pub open spec fn text_member(tree: JsonTree, key: Seq<char>) -> Option<Seq<char>> {
    match member(tree, key) {
        Some(JsonTree::Text(s)) => Some(s),
        _ => None,
    }
}

/// The number held by the member `key` of `tree`, where `tree` is an object
/// whose member `key` is an unsigned integer.
pub open spec fn u64_member(tree: JsonTree, key: Seq<char>) -> Option<u64> {
    match member(tree, key) {
        Some(JsonTree::Number(Some(n))) => Some(n),
        _ => None,
    }
}

/// `serde_json::from_str` at `serde_json::Value`. The outcome is a function
/// of the text alone and is only named here.
#[verifier::external_body]
fn parse_json(text: &str) -> (r: Result<serde_json::Value, serde_json::Error>)
    ensures
        match r {
            Ok(v) => json_parse(text@) == Ok::<JsonTree, Seq<char>>(json_tree(v)),
            Err(e) => json_parse(text@) == Err::<JsonTree, Seq<char>>(json_error_message(e)),
        },
{
    serde_json::from_str::<serde_json::Value>(text)
}

/// `Display` of a `serde_json::Error`: its message.
#[verifier::external_body]
fn json_error_text(error: &serde_json::Error) -> (message: String)
    ensures
        message@ == json_error_message(*error),
{
    error.to_string()
}

/// `serde_json::Value::get` with a string key: the member of that name where
/// the value is an object that has it, nothing otherwise.
#[verifier::external_body]
fn json_get<'a>(value: &'a serde_json::Value, key: &str) -> (r: Option<&'a serde_json::Value>)
    ensures
        match r {
            Some(m) => member(json_tree(*value), key@) == Some(json_tree(*m)),
            None => member(json_tree(*value), key@) is None,
        },
{
    value.get(key)
}

/// `serde_json::Value::as_str`: the text where the value is a string, nothing
/// otherwise.
#[verifier::external_body]
fn json_as_str<'a>(value: &'a serde_json::Value) -> (r: Option<&'a str>)
    ensures
        match r {
            Some(s) => json_tree(*value) == JsonTree::Text(s@),
            None => !(json_tree(*value) is Text),
        },
{
    value.as_str()
}

/// `serde_json::Value::as_u64`: the number where the value is held as an
/// unsigned integer, nothing otherwise.
#[verifier::external_body]
fn json_as_u64(value: &serde_json::Value) -> (r: Option<u64>)
    ensures
        match r {
            Some(n) => json_tree(*value) == JsonTree::Number(Some(n)),
            None => !(json_tree(*value) matches JsonTree::Number(Some(_))),
        },
{
    value.as_u64()
}

/// `serde_json::to_string` at `str`: the JSON string literal for a text.
/// Encoding a text into memory cannot fail. The literal is a function of the
/// text alone and is only named here; the encoder escapes every control
/// character, so no line feed occurs in it.
#[verifier::external_body]
fn encode_json_text(text: &str) -> (r: Result<String, serde_json::Error>)
    ensures
        r is Ok,
        r matches Ok(literal) ==> literal@ == json_text_literal(text@) && !literal@.contains('\n'),
{
    serde_json::to_string(text)
}

/// Outcome of looking up a string member in a JSON document.
pub open spec fn text_field_spec(doc: Seq<char>, key: Seq<char>) -> Result<
    Option<Seq<char>>,
    Seq<char>,
> {
    match json_parse(doc) {
        Ok(tree) => Ok(text_member(tree, key)),
        Err(message) => Err(message),
    }
}

/// Outcome of looking up an unsigned member in a JSON document.
pub open spec fn u64_field_spec(doc: Seq<char>, key: Seq<char>) -> Result<Option<u64>, Seq<char>> {
    match json_parse(doc) {
        Ok(tree) => Ok(u64_member(tree, key)),
        Err(message) => Err(message),
    }
}

/// View of the outcome of a string lookup.
pub open spec fn text_lookup_view(r: Result<Option<String>, String>) -> Result<
    Option<Seq<char>>,
    Seq<char>,
> {
    match r {
        Ok(Some(s)) => Ok(Some(s@)),
        Ok(None) => Ok(None),
        Err(m) => Err(m@),
    }
}

/// View of the outcome of an unsigned lookup.
pub open spec fn u64_lookup_view(r: Result<Option<u64>, String>) -> Result<Option<u64>, Seq<char>> {
    match r {
        Ok(n) => Ok(n),
        Err(m) => Err(m@),
    }
}

/// Parses `doc` and reads its string member `key`: `Ok(Some(..))` where the
/// document is an object whose member `key` is a string, `Ok(None)` where it
/// parses and is anything else, and the parser's message where it does not
/// parse.
pub fn text_field(doc: &str, key: &str) -> (r: Result<Option<String>, String>)
    ensures
        text_lookup_view(r) == text_field_spec(doc@, key@),
{
    match parse_json(doc) {
        Ok(value) => match json_get(&value, key) {
            Some(m) => match json_as_str(m) {
                Some(s) => Ok(Some(String::from_str(s))),
                None => Ok(None),
            },
            None => Ok(None),
        },
        Err(e) => Err(json_error_text(&e)),
    }
}

/// Parses `doc` and reads its unsigned member `key`, like `text_field`.
pub fn u64_field(doc: &str, key: &str) -> (r: Result<Option<u64>, String>)
    ensures
        u64_lookup_view(r) == u64_field_spec(doc@, key@),
{
    match parse_json(doc) {
        Ok(value) => match json_get(&value, key) {
            Some(m) => Ok(json_as_u64(m)),
            None => Ok(None),
        },
        Err(e) => Err(json_error_text(&e)),
    }
}

/// The JSON string literal for `text`. No line feed occurs in it.
pub fn text_literal(text: &str) -> (literal: String)
    ensures
        literal@ == json_text_literal(text@),
        !literal@.contains('\n'),
{
    encode_json_text(text).unwrap()
}

} // verus!
