//! JSON documents as plain data.
//!
//! Payloads arrive as JSON. The driver converts them into [`Json`] one for
//! one; a number is kept as its decimal text, so that no precision is lost
//! and none is invented.

use vstd::prelude::*;
use crate::text::{
    first_position,
    is_first_position,
    lemma_first_position_absent,
    lemma_first_position_found,
    str_eq,
};

verus! {

/// A JSON document.
#[derive(Debug, PartialEq, Eq)]
pub enum Json {
    Null,
    Bool(bool),
    /// A number, as its decimal text.
    Number(String),
    Text(String),
    Array(Vec<Json>),
    /// An object's members, in document order.
    Object(Vec<(String, Json)>),
}

/// The mathematical value of a [`Json`] document.
pub enum JsonValue {
    Null,
    Bool(bool),
    Number(Seq<char>),
    Text(Seq<char>),
    Array(Seq<JsonValue>),
    Object(Seq<(Seq<char>, JsonValue)>),
}

/// The mathematical value of a document.
pub open spec fn json_value(document: Json) -> JsonValue
    decreases document,
{
    match document {
        Json::Null => JsonValue::Null,
        Json::Bool(b) => JsonValue::Bool(b),
        Json::Number(digits) => JsonValue::Number(digits@),
        Json::Text(text) => JsonValue::Text(text@),
        Json::Array(items) => JsonValue::Array(
            Seq::new(
                items@.len(),
                |i: int|
                    if 0 <= i < items@.len() {
                        json_value(items@[i])
                    } else {
                        JsonValue::Null
                    },
            ),
        ),
        Json::Object(members) => JsonValue::Object(
            Seq::new(
                members@.len(),
                |i: int|
                    if 0 <= i < members@.len() {
                        (members@[i].0@, json_value(members@[i].1))
                    } else {
                        (Seq::empty(), JsonValue::Null)
                    },
            ),
        ),
    }
}

impl View for Json {
    type V = JsonValue;

    open spec fn view(&self) -> JsonValue {
        json_value(*self)
    }
}

/// The keys of an object's members, in document order.
pub open spec fn member_keys(members: Seq<(Seq<char>, JsonValue)>) -> Seq<Seq<char>> {
    Seq::new(members.len(), |i: int| members[i].0)
}

impl JsonValue {
    /// The JSON name of this value's type.
    pub open spec fn kind(self) -> Seq<char> {
        match self {
            JsonValue::Null => "null"@,
            JsonValue::Bool(_) => "boolean"@,
            JsonValue::Number(_) => "number"@,
            JsonValue::Text(_) => "string"@,
            JsonValue::Array(_) => "array"@,
            JsonValue::Object(_) => "object"@,
        }
    }

    /// The value of an object's first member named `key`; `None` where there is
    /// no such member or this is no object.
    pub open spec fn member(self, key: Seq<char>) -> Option<JsonValue> {
        match self {
            JsonValue::Object(members) => match first_position(member_keys(members), key) {
                Some(i) => Some(members[i].1),
                None => None,
            },
            _ => None,
        }
    }

    /// An array's elements; `None` where this is no array.
    pub open spec fn elements(self) -> Option<Seq<JsonValue>> {
        match self {
            JsonValue::Array(items) => Some(items),
            _ => None,
        }
    }

    /// A string's characters; `None` where this is no string.
    pub open spec fn text(self) -> Option<Seq<char>> {
        match self {
            JsonValue::Text(text) => Some(text),
            _ => None,
        }
    }
}

/// An array's value holds the values of its elements, in order.
pub proof fn lemma_array_view(items: Vec<Json>)
    ensures
        Json::Array(items)@ is Array,
        Json::Array(items)@->Array_0.len() == items@.len(),
        forall|i: int|
            0 <= i < items@.len() ==> Json::Array(items)@->Array_0[i] == (#[trigger] items@[i])@,
{
}

/// An object's value holds the key and the value of each member, in order.
pub proof fn lemma_object_view(members: Vec<(String, Json)>)
    ensures
        Json::Object(members)@ is Object,
        Json::Object(members)@->Object_0.len() == members@.len(),
        forall|i: int|
            0 <= i < members@.len() ==> Json::Object(members)@->Object_0[i] == (
                (#[trigger] members@[i]).0@,
                members@[i].1@,
            ),
{
}

impl Json {
    /// The JSON name of this document's type.
    pub fn kind(&self) -> (name: &'static str)
        ensures
            name@ == self@.kind(),
    {
        match self {
            Json::Null => "null",
            Json::Bool(_) => "boolean",
            Json::Number(_) => "number",
            Json::Text(_) => "string",
            Json::Array(_) => "array",
            Json::Object(_) => "object",
        }
    }

    /// The value of the first member named `key`, where this is an object that
    /// has one.
    pub fn member(&self, key: &str) -> (found: Option<&Json>)
        ensures
            match found {
                Some(value) => self@.member(key@) == Some(value@),
                None => self@.member(key@) is None,
            },
    {
        match self {
            Json::Object(members) => {
                let ghost keys = member_keys(self@->Object_0);
                proof {
                    lemma_object_view(*members);
                }
                let mut i: usize = 0;
                while i < members.len()
                    invariant
                        i <= members@.len(),
                        self@ is Object,
                        *self == Json::Object(*members),
                        keys == member_keys(self@->Object_0),
                        keys.len() == members@.len(),
                        forall|j: int| 0 <= j < members@.len() ==> keys[j] == members@[j].0@,
                        forall|j: int|
                            0 <= j < members@.len() ==> self@->Object_0[j].1 == members@[j].1@,
                        forall|j: int| 0 <= j < i ==> keys[j] != key@,
                    decreases members@.len() - i,
                {
                    if str_eq(members[i].0.as_str(), key) {
                        proof {
                            assert(is_first_position(keys, key@, i as int));
                            lemma_first_position_found(keys, key@, i as int);
                        }
                        return Some(&members[i].1);
                    }
                    i += 1;
                }
                proof {
                    lemma_first_position_absent(keys, key@);
                }
                None
            },
            _ => None,
        }
    }

    /// The elements, where this is an array.
    pub fn elements(&self) -> (items: Option<&Vec<Json>>)
        ensures
            match items {
                Some(items) => self@.elements() == Some(items.deep_view()),
                None => self@.elements() is None,
            },
    {
        match self {
            Json::Array(items) => {
                proof {
                    lemma_array_view(*items);
                }
                assert(self@->Array_0 =~= items.deep_view());
                Some(items)
            },
            _ => None,
        }
    }

    /// The characters, where this is a string.
    pub fn text(&self) -> (text: Option<&String>)
        ensures
            match text {
                Some(text) => self@.text() == Some(text@),
                None => self@.text() is None,
            },
    {
        match self {
            Json::Text(text) => Some(text),
            _ => None,
        }
    }
}

impl DeepView for Json {
    type V = JsonValue;

    open spec fn deep_view(&self) -> JsonValue {
        self@
    }
}

} // verus!
