//! JSON documents as plain data. `serde_json` reads the text; everything that
//! looks into a document afterwards works on [`Json`].

use crate::error::ReplyError;
use vstd::prelude::*;

verus! {

/// A JSON value.
///
/// Whole numbers that fit `u64` are `Unsigned`, negative ones that fit `i64`
/// are `Negative`, and every other number is kept as the text `serde_json`
/// prints for it. In a document that [`Json::parse`] has read, the members of
/// an object stand in the order in which `serde_json` hands them out, and no
/// key occurs twice.
#[derive(Debug, PartialEq, Eq)]
pub enum Json {
    Null,
    Bool(bool),
    Unsigned(u64),
    Negative(i64),
    Real(String),
    Text(String),
    Array(Vec<Json>),
    Object(Vec<(String, Json)>),
}

/// `serde_json`'s own value, which nothing here looks into.
#[verifier::external_type_specification]
#[verifier::external_body]
pub struct ExValue(serde_json::Value);

/// `serde_json`'s error, which nothing here looks into.
#[verifier::external_type_specification]
#[verifier::external_body]
pub struct ExJsonError(serde_json::Error);

/// The [`Json`] that holds what a `serde_json::Value` holds.
pub uninterp spec fn json_of_value(value: serde_json::Value) -> Json;

/// The document that `serde_json` reads from `text`, or `None` where
/// `serde_json` rejects the text.
pub uninterp spec fn parsed_document(text: Seq<char>) -> Option<Json>;

/// Calls `serde_json::from_str` for a `serde_json::Value`.
///
/// The contract only names the outcome: the value that comes back is the one
/// that [`parsed_document`] speaks of, and an error comes back exactly where
/// [`parsed_document`] is `None`. Which texts are JSON is `serde_json`'s matter.
#[verifier::external_body]
fn value_from_str(text: &str) -> (r: Result<serde_json::Value, serde_json::Error>)
    ensures
        r matches Ok(value) ==> parsed_document(text@) == Some(json_of_value(value)),
        r is Err ==> parsed_document(text@) is None,
{
    serde_json::from_str::<serde_json::Value>(text)
}

/// Moves a `serde_json::Value` into a [`Json`], variant by variant.
///
/// A number goes by `Number::as_u64`, then `Number::as_i64`, and otherwise by
/// its `Display` text. The contract only names the result.
#[verifier::external_body]
fn json_from_value(value: serde_json::Value) -> (json: Json)
    ensures
        json == json_of_value(value),
{
    match value {
        serde_json::Value::Null => Json::Null,
        serde_json::Value::Bool(flag) => Json::Bool(flag),
        serde_json::Value::Number(n) => match (n.as_u64(), n.as_i64()) {
            (Some(whole), _) => Json::Unsigned(whole),
            (None, Some(whole)) => Json::Negative(whole),
            (None, None) => Json::Real(n.to_string()),
        },
        serde_json::Value::String(text) => Json::Text(text),
        serde_json::Value::Array(items) => Json::Array(items.into_iter().map(json_from_value).collect()),
        serde_json::Value::Object(members) => Json::Object(members.into_iter().map(|(k, v)| (k, json_from_value(v))).collect()),
    }
}

/// The value under the first member of `members` whose key is `key`.
pub open spec fn member(members: Seq<(String, Json)>, key: Seq<char>) -> Option<Json>
    decreases members.len(),
{
    if members.len() == 0 {
        None
    } else if members[0].0@ == key {
        Some(members[0].1)
    } else {
        member(members.skip(1), key)
    }
}

/// Finds the value under the first member of `members` whose key is `key`.
pub fn find_member<'a>(members: &'a Vec<(String, Json)>, key: &str) -> (r: Option<&'a Json>)
    ensures
        match r {
            Some(value) => member(members@, key@) == Some(*value),
            None => member(members@, key@) is None,
        },
{
    let wanted = String::from_str(key);
    let mut i: usize = 0;
    assert(members@.skip(0) == members@);
    while i < members.len()
        invariant
            i <= members.len(),
            wanted@ == key@,
            member(members@, key@) == member(members@.skip(i as int), key@),
        decreases members.len() - i,
    {
        assert(members@.skip(i as int).skip(1) == members@.skip(i + 1));
        if members[i].0 == wanted {
            return Some(&members[i].1);
        }
        i += 1;
    }
    None
}

impl Json {
    /// The value of member `key`, where `self` is an object that has one.
    pub open spec fn field(self, key: Seq<char>) -> Option<Json> {
        match self {
            Json::Object(members) => member(members@, key),
            _ => None,
        }
    }

    /// The text of member `key`, where `self` is an object whose member `key` is a string.
    pub open spec fn text_field(self, key: Seq<char>) -> Option<Seq<char>> {
        match self.field(key) {
            Some(Json::Text(text)) => Some(text@),
            _ => None,
        }
    }

    /// The number of member `key`, where `self` is an object whose member `key`
    /// is a whole number from 0 to 2^64 - 1.
    pub open spec fn unsigned_field(self, key: Seq<char>) -> Option<u64> {
        match self.field(key) {
            Some(Json::Unsigned(n)) => Some(n),
            _ => None,
        }
    }

    /// Reads `text` as one JSON document.
    pub fn parse(text: &str) -> (r: Result<Json, ReplyError>)
        ensures
            r == match parsed_document(text@) {
                Some(document) => Ok::<Json, ReplyError>(document),
                None => Err(ReplyError::Syntax),
            },
    {
        match value_from_str(text) {
            Ok(value) => Ok(json_from_value(value)),
            Err(_) => Err(ReplyError::Syntax),
        }
    }

    /// Looks up member `key` of an object.
    pub fn get<'a>(&'a self, key: &str) -> (r: Option<&'a Json>)
        ensures
            match r {
                Some(value) => self.field(key@) == Some(*value),
                None => self.field(key@) is None,
            },
    {
        match self {
            Json::Object(members) => find_member(members, key),
            _ => None,
        }
    }

    /// Looks up member `key` of an object and hands out its text, if it is a string.
    pub fn get_text<'a>(&'a self, key: &str) -> (r: Option<&'a String>)
        ensures
            match r {
                Some(text) => self.text_field(key@) == Some(text@),
                None => self.text_field(key@) is None,
            },
    {
        match self.get(key) {
            Some(Json::Text(text)) => Some(text),
            _ => None,
        }
    }

    /// Looks up member `key` of an object and hands out its number, if it is a
    /// whole number that is not negative.
    pub fn get_unsigned(&self, key: &str) -> (r: Option<u64>)
        ensures
            r == self.unsigned_field(key@),
    {
        match self.get(key) {
            Some(Json::Unsigned(n)) => Some(*n),
            _ => None,
        }
    }
}

} // verus!
