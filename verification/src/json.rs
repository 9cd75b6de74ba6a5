//! JSON documents as the decoder sees them.
//!
//! Reading JSON text is `serde_json`'s work. What it hands back is copied into
//! a [`Json`] tree, and everything that decides whether a document has the
//! expected shape works on that tree.

use vstd::prelude::*;
use vstd::string::*;
use crate::decimal::{parse_u64, parsed_u64};

verus! {

/// A JSON document.
#[derive(Debug, PartialEq, Eq)]
pub enum Json {
    Null,
    Bool(bool),
    /// A number, held as the text `serde_json` prints for it: plain digits
    /// for a non-negative integer that fits 64 bits, a leading `-` for a
    /// negative one, a form with `.` or `e` for anything else.
    Number(String),
    Text(String),
    Array(Vec<Json>),
    /// The members of an object, each key once.
    Object(Vec<(String, Json)>),
}

#[verifier::external_type_specification]
#[verifier::external_body]
pub struct ExValue(serde_json::Value);

/// What `serde_json` makes of a text: a value, or the message of its error.
pub uninterp spec fn parsed_value(text: Seq<char>) -> Result<serde_json::Value, String>;

/// The document that a `serde_json` value holds.
pub uninterp spec fn value_contents(value: serde_json::Value) -> Json;

/// Calls `serde_json::from_str` for a `serde_json::Value`. The outcome depends
/// on the text alone; an error is handed on as its message.
#[verifier::external_body]
fn parse_value(text: &str) -> (outcome: Result<serde_json::Value, String>)
    ensures
        outcome == parsed_value(text@),
{
    match serde_json::from_str::<serde_json::Value>(text) {
        Ok(value) => Ok(value),
        Err(error) => Err(error.to_string()),
    }
}

/// Copies a `serde_json::Value` into a [`Json`], variant by variant: a number
/// becomes the text that `serde_json` prints for it, the items of an array
/// and the members of an object are copied in the order in which
/// `serde_json` walks them.
#[verifier::external_body]
fn copy_value(value: &serde_json::Value) -> (json: Json)
    ensures
        json == value_contents(*value),
{
    match value {
        serde_json::Value::Null => Json::Null,
        serde_json::Value::Bool(flag) => Json::Bool(*flag),
        serde_json::Value::Number(number) => Json::Number(number.to_string()),
        serde_json::Value::String(text) => Json::Text(text.clone()),
        serde_json::Value::Array(items) => Json::Array(items.iter().map(copy_value).collect()),
        serde_json::Value::Object(members) => Json::Object(
            members.iter().map(|(key, item)| (key.clone(), copy_value(item))).collect(),
        ),
    }
}

/// The document that a text denotes, or the parser's message where the text
/// is not JSON.
pub open spec fn json_document(text: Seq<char>) -> Result<Json, String> {
    match parsed_value(text) {
        Ok(value) => Ok(value_contents(value)),
        Err(message) => Err(message),
    }
}

/// Reads a text as JSON.
pub fn parse(text: &str) -> (outcome: Result<Json, String>)
    ensures
        outcome == json_document(text@),
{
    match parse_value(text) {
        Ok(value) => Ok(copy_value(&value)),
        Err(message) => Err(message),
    }
}

/// The value of the first member named `key`, if there is one.
pub open spec fn lookup(members: Seq<(String, Json)>, key: Seq<char>) -> Option<Json>
    decreases members.len(),
{
    if members.len() == 0 {
        None
    } else if members[0].0@ == key {
        Some(members[0].1)
    } else {
        lookup(members.skip(1), key)
    }
}

impl Json {
    /// The member named `key` of an object; `None` for a missing member and
    /// for anything that is not an object.
    pub open spec fn member(self, key: Seq<char>) -> Option<Json> {
        match self {
            Json::Object(members) => lookup(members@, key),
            _ => None,
        }
    }

    /// The text of a string; `None` for anything else.
    pub open spec fn text(self) -> Option<Seq<char>> {
        match self {
            Json::Text(text) => Some(text@),
            _ => None,
        }
    }

    /// The value of a boolean; `None` for anything else.
    pub open spec fn flag(self) -> Option<bool> {
        match self {
            Json::Bool(flag) => Some(flag),
            _ => None,
        }
    }

    /// The value of a number that is a non-negative integer below 2^64;
    /// `None` for any other number and for anything that is not a number.
    pub open spec fn number(self) -> Option<u64> {
        match self {
            Json::Number(text) => parsed_u64(text@),
            _ => None,
        }
    }

    /// The items of an array; `None` for anything else.
    pub open spec fn items(self) -> Option<Seq<Json>> {
        match self {
            Json::Array(items) => Some(items@),
            _ => None,
        }
    }

    /// The text of the string member named `key`; `None` where the member
    /// is missing or is not a string.
    pub open spec fn text_at(self, key: Seq<char>) -> Option<Seq<char>> {
        match self.member(key) {
            Some(json) => json.text(),
            None => None,
        }
    }

    /// The value of the number member named `key`; `None` where the member
    /// is missing or is not a non-negative integer below 2^64.
    pub open spec fn number_at(self, key: Seq<char>) -> Option<u64> {
        match self.member(key) {
            Some(json) => json.number(),
            None => None,
        }
    }

    /// The value of the boolean member named `key`; `None` where the member
    /// is missing or is not a boolean.
    pub open spec fn flag_at(self, key: Seq<char>) -> Option<bool> {
        match self.member(key) {
            Some(json) => json.flag(),
            None => None,
        }
    }

    /// The member named `key` of an object.
    pub fn get(&self, key: &str) -> (found: Option<&Json>)
        ensures
            match found {
                Some(json) => self.member(key@) == Some(*json),
                None => self.member(key@) is None,
            },
    {
        match self {
            Json::Object(members) => {
                let wanted = String::from_str(key);
                let n = members.len();
                let mut i: usize = 0;
                assert(members@.skip(0) =~= members@);
                while i < n
                    invariant
                        n == members@.len(),
                        i <= n,
                        wanted@ == key@,
                        self.member(key@) == lookup(members@, key@),
                        lookup(members@, key@) == lookup(members@.skip(i as int), key@),
                    decreases n - i,
                {
                    assert(members@.skip(i as int)[0] == members@[i as int]);
                    assert(members@.skip(i as int).skip(1) =~= members@.skip(i + 1));
                    let ghost rest = members@.skip(i as int);
                    if members[i].0 == wanted {
                        assert(rest[0].0@ == key@);
                        assert(lookup(rest, key@) == Some(rest[0].1));
                        return Some(&members[i].1);
                    }
                    i += 1;
                }
                None
            },
            _ => None,
        }
    }

    /// The text of a string.
    pub fn as_text(&self) -> (found: Option<&String>)
        ensures
            match found {
                Some(text) => self.text() == Some(text@),
                None => self.text() is None,
            },
    {
        match self {
            Json::Text(text) => Some(text),
            _ => None,
        }
    }

    /// The value of a boolean.
    pub fn as_flag(&self) -> (found: Option<bool>)
        ensures
            found == self.flag(),
    {
        match self {
            Json::Bool(flag) => Some(*flag),
            _ => None,
        }
    }

    /// The value of a number that is a non-negative integer below 2^64.
    pub fn as_number(&self) -> (found: Option<u64>)
        ensures
            found == self.number(),
    {
        match self {
            Json::Number(text) => parse_u64(text.as_str()),
            _ => None,
        }
    }

    /// The text of the string member named `key`.
    pub fn get_text(&self, key: &str) -> (found: Option<String>)
        ensures
            match found {
                Some(text) => self.text_at(key@) == Some(text@),
                None => self.text_at(key@) is None,
            },
    {
        match self.get(key) {
            Some(json) => match json.as_text() {
                Some(text) => Some(text.clone()),
                None => None,
            },
            None => None,
        }
    }

    /// The value of the number member named `key`.
    pub fn get_number(&self, key: &str) -> (found: Option<u64>)
        ensures
            found == self.number_at(key@),
    {
        match self.get(key) {
            Some(json) => json.as_number(),
            None => None,
        }
    }

    /// The value of the boolean member named `key`.
    pub fn get_flag(&self, key: &str) -> (found: Option<bool>)
        ensures
            found == self.flag_at(key@),
    {
        match self.get(key) {
            Some(json) => json.as_flag(),
            None => None,
        }
    }

    /// The items of an array.
    pub fn as_items(&self) -> (found: Option<&Vec<Json>>)
        ensures
            match found {
                Some(items) => self.items() == Some(items@),
                None => self.items() is None,
            },
    {
        match self {
            Json::Array(items) => Some(items),
            _ => None,
        }
    }
}

} // verus!
