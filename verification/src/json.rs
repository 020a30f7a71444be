//! JSON documents, as `serde_json` builds, reads and writes them.
//!
//! A document is carried as a `Value`. Contracts speak of what a
//! document holds: its [`Json`] content.
use serde_json::Value;
use vstd::prelude::*;

verus! {

/// What a JSON document holds. The members of an object are kept by key: an
/// object has no two members of one key, and the order of its members does
/// not count.
pub enum Json {
    Null,
    Bool(bool),
    Number(int),
    Text(Seq<char>),
    Array(Seq<Json>),
    Object(Map<Seq<char>, Json>),
}

/// `serde_json::Value`: a JSON document, taken as a whole. What it holds
/// is [`json_of`] it.
#[verifier::external_type_specification]
#[verifier::external_body]
pub struct ExValue(serde_json::Value);

/// `serde_json::Map`: the members of a JSON object, taken as a whole. What
/// it holds is [`members_of`] it.
#[verifier::external_type_specification]
#[verifier::external_body]
#[verifier::reject_recursive_types(K)]
#[verifier::reject_recursive_types(V)]
pub struct ExMembers<K, V>(serde_json::Map<K, V>);

/// `serde_json::Error`: why a text is no JSON document. Nothing is read
/// from it.
#[verifier::external_type_specification]
#[verifier::external_body]
pub struct ExJsonError(serde_json::Error);

/// The members of a JSON object under construction.
pub type Members = serde_json::Map<String, Value>;

/// The content of a document. Of a number that is no unsigned integer it is
/// a content like any other, of which the constructors here say nothing.
pub uninterp spec fn json_of(value: Value) -> Json;

/// The members that a `serde_json::Map` holds, by key.
pub uninterp spec fn members_of(members: Members) -> Map<Seq<char>, Json>;

/// The content of the document that `serde_json::from_str` reads from a text,
/// or `None` where it reports an error.
pub uninterp spec fn parsed(text: Seq<char>) -> Option<Json>;

/// The text that `serde_json::to_string` writes for a document. It is a
/// function of the content as long as the members of an object are kept in
/// the order of their keys, which is how `serde_json` keeps them unless its
/// feature `preserve_order` is switched on; this crate does not switch it
/// on.
pub uninterp spec fn rendered(content: Json) -> Seq<char>;

/// The contents of a list of documents.
pub open spec fn contents(items: Seq<Value>) -> Seq<Json> {
    items.map_values(|item: Value| json_of(item))
}

/// `Clone::clone` of `Value`: the copy is the same document.
pub assume_specification[ <Value as Clone>::clone ](value: &Value) -> (copy: Value)
    ensures
        copy == *value,
;

/// `serde_json::Map::new`: a map without members.
#[verifier::external_body]
pub(crate) fn no_members() -> (fresh: Members)
    ensures
        members_of(fresh) =~= Map::empty(),
{
    serde_json::Map::new()
}

/// `serde_json::Map::insert`: the map holds the value under the key, in place
/// of any value it held there, which is returned.
pub assume_specification[ serde_json::Map::<String, Value>::insert ](
    map: &mut serde_json::Map<String, Value>,
    k: String,
    v: Value,
) -> (previous: Option<Value>)
    ensures
        members_of(*final(map)) == members_of(*old(map)).insert(k@, json_of(v)),
        previous is Some <==> members_of(*old(map)).contains_key(k@),
        previous matches Some(p) ==> json_of(p) == members_of(*old(map))[k@],
;

/// `Value::Null`.
#[verifier::external_body]
pub(crate) fn null() -> (value: Value)
    ensures
        json_of(value) == Json::Null,
{
    Value::Null
}

/// `Value::Bool` of a flag.
#[verifier::external_body]
pub(crate) fn boolean(flag: bool) -> (value: Value)
    ensures
        json_of(value) == Json::Bool(flag),
{
    Value::Bool(flag)
}

/// `Value::from` of an unsigned integer: the number itself.
#[verifier::external_body]
pub(crate) fn number(n: u64) -> (value: Value)
    ensures
        json_of(value) == Json::Number(n as int),
{
    Value::from(n)
}

/// `Value::String` of a copy of a text.
#[verifier::external_body]
pub(crate) fn text(s: &str) -> (value: Value)
    ensures
        json_of(value) == Json::Text(s@),
{
    Value::String(s.to_owned())
}

/// `Value::Array` of a list of documents, in their order.
#[verifier::external_body]
pub(crate) fn array(items: Vec<Value>) -> (value: Value)
    ensures
        json_of(value) == Json::Array(contents(items@)),
{
    Value::Array(items)
}

/// `Value::Object` of a map of members.
#[verifier::external_body]
pub(crate) fn object(members: Members) -> (value: Value)
    ensures
        json_of(value) == Json::Object(members_of(members)),
{
    Value::Object(members)
}

/// `serde_json::from_str` for a `Value`: the document that the
/// text denotes, or the parser's error.
#[verifier::external_body]
pub(crate) fn parse(source: &str) -> (outcome: Result<Value, serde_json::Error>)
    ensures
        outcome is Ok <==> parsed(source@) is Some,
        outcome matches Ok(value) ==> parsed(source@) == Some(json_of(value)),
{
    serde_json::from_str::<Value>(source)
}

/// `serde_json::to_string` of a document: its compact text.
#[verifier::external_body]
pub(crate) fn render(value: &Value) -> (out: String)
    ensures
        out@ == rendered(json_of(*value)),
{
    serde_json::to_string(value).unwrap_or_default()
}

/// An object with one member.
pub open spec fn object1(key: Seq<char>, value: Json) -> Json {
    Json::Object(Map::<Seq<char>, Json>::empty().insert(key, value))
}

/// An object with two members.
pub open spec fn object2(key1: Seq<char>, value1: Json, key2: Seq<char>, value2: Json) -> Json {
    Json::Object(Map::<Seq<char>, Json>::empty().insert(key1, value1).insert(key2, value2))
}

/// The document that a text denotes, or, where it denotes none, an object
/// that holds the text under the key `raw`.
pub open spec fn parsed_or_raw(source: Seq<char>) -> Json {
    match parsed(source) {
        Some(content) => content,
        None => object1("raw"@, Json::Text(source)),
    }
}

/// The document that a text denotes, if there is a text and it denotes one;
/// else the fallback.
pub open spec fn parsed_or(source: Option<Seq<char>>, fallback: Json) -> Json {
    match source {
        Some(s) => match parsed(s) {
            Some(content) => content,
            None => fallback,
        },
        None => fallback,
    }
}

/// Builds an object with one member.
pub fn build_object1(key: &str, value: Value) -> (doc: Value)
    ensures
        json_of(doc) == object1(key@, json_of(value)),
{
    let mut members = no_members();
    members.insert(key.to_owned(), value);
    object(members)
}

/// Builds an object with two members.
pub fn build_object2(key1: &str, value1: Value, key2: &str, value2: Value) -> (doc: Value)
    ensures
        json_of(doc) == object2(key1@, json_of(value1), key2@, json_of(value2)),
{
    let mut members = no_members();
    members.insert(key1.to_owned(), value1);
    members.insert(key2.to_owned(), value2);
    object(members)
}

/// Reads a text as a JSON document. A text that is none is kept as it is,
/// under the key `raw`.
pub fn parse_or_raw(source: &str) -> (doc: Value)
    ensures
        json_of(doc) == parsed_or_raw(source@),
{
    match parse(source) {
        Ok(value) => value,
        Err(_) => build_object1("raw", text(source)),
    }
}

/// Reads a text as a JSON document. Where there is no text, or it is no
/// document, the fallback stands in.
pub fn parse_or(source: &Option<String>, fallback: Value) -> (doc: Value)
    ensures
        json_of(doc) == parsed_or(crate::text::opt_text(*source), json_of(fallback)),
{
    match source {
        Some(s) => match parse(s.as_str()) {
            Ok(value) => value,
            Err(_) => fallback,
        },
        None => fallback,
    }
}

} // verus!
