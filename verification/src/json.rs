//! A JSON document as the bot reads it from the YouTube API, and the
//! lookups `value["key"]`, `value[i]`, `as_str` and `as_array` on it.

use crate::text::same_text;
use vstd::prelude::*;

verus! {

/// One `"key": value` pair of a JSON object.
#[derive(Debug, PartialEq, Eq)]
pub struct JsonMember {
    pub key: String,
    pub value: JsonValue,
}

/// A JSON value. Numbers are kept as their text; objects keep their members
/// in order.
#[derive(Debug, PartialEq, Eq)]
pub enum JsonValue {
    Null,
    Bool(bool),
    Number(String),
    Str(String),
    Array(Vec<JsonValue>),
    Object(Vec<JsonMember>),
}

/// The value of the first member of `members` named `key`.
pub open spec fn member_value(members: Seq<JsonMember>, key: Seq<char>) -> Option<JsonValue>
    decreases members.len(),
{
    if members.len() == 0 {
        None
    } else if members[0].key@ == key {
        Some(members[0].value)
    } else {
        member_value(members.drop_first(), key)
    }
}

impl JsonValue {
    /// `self[key]`: the member named `key` of an object; `None` (JSON's
    /// `null`) for a missing member or a value that is not an object.
    pub open spec fn field(self, key: Seq<char>) -> Option<JsonValue> {
        match self {
            JsonValue::Object(members) => member_value(members@, key),
            _ => None,
        }
    }

    /// `self[i]`: the `i`-th element of an array; `None` out of range or for
    /// a value that is not an array.
    pub open spec fn element(self, i: int) -> Option<JsonValue> {
        match self {
            JsonValue::Array(items) => if 0 <= i < items@.len() {
                Some(items@[i])
            } else {
                None
            },
            _ => None,
        }
    }

    /// `as_str`: the text of a string value.
    pub open spec fn text(self) -> Option<Seq<char>> {
        match self {
            JsonValue::Str(s) => Some(s@),
            _ => None,
        }
    }

    /// `as_array`: the elements of an array value.
    pub open spec fn elements(self) -> Option<Seq<JsonValue>> {
        match self {
            JsonValue::Array(items) => Some(items@),
            _ => None,
        }
    }

    /// `self[key]`.
    pub fn get_field<'a>(&'a self, key: &str) -> (res: Option<&'a JsonValue>)
        ensures
            match self.field(key@) {
                Some(v) => res is Some && *res->0 == v,
                None => res is None,
            },
    {
        match self {
            JsonValue::Object(members) => {
                let mut i: usize = 0;
                assert(members@.subrange(0, members@.len() as int) =~= members@);
                while i < members.len()
                    invariant
                        i <= members@.len(),
                        self.field(key@) == member_value(members@, key@),
                        member_value(members@, key@) == member_value(
                            members@.subrange(i as int, members@.len() as int),
                            key@,
                        ),
                    decreases members@.len() - i,
                {
                    let ghost rest = members@.subrange(i as int, members@.len() as int);
                    assert(rest.drop_first() =~= members@.subrange(i + 1, members@.len() as int));
                    assert(rest[0] == members@[i as int]);
                    if same_text(members[i].key.as_str(), key) {
                        assert(rest.len() > 0 && rest[0].key@ == key@);
                        assert(member_value(rest, key@) == Some(members@[i as int].value));
                        return Some(&members[i].value);
                    }
                    i = i + 1;
                }
                None
            },
            _ => None,
        }
    }

    /// `self[i]`.
    pub fn get_element<'a>(&'a self, i: usize) -> (res: Option<&'a JsonValue>)
        ensures
            match self.element(i as int) {
                Some(v) => res is Some && *res->0 == v,
                None => res is None,
            },
    {
        match self {
            JsonValue::Array(items) => if i < items.len() {
                Some(&items[i])
            } else {
                None
            },
            _ => None,
        }
    }

    /// `as_str`.
    pub fn as_text(&self) -> (res: Option<&str>)
        ensures
            match self.text() {
                Some(t) => res is Some && res->0@ == t,
                None => res is None,
            },
    {
        match self {
            JsonValue::Str(s) => Some(s.as_str()),
            _ => None,
        }
    }

    /// `as_array`.
    pub fn as_elements(&self) -> (res: Option<&Vec<JsonValue>>)
        ensures
            match self.elements() {
                Some(items) => res is Some && res->0@ == items,
                None => res is None,
            },
    {
        match self {
            JsonValue::Array(items) => Some(items),
            _ => None,
        }
    }
}

/// `value[k1][k2].as_str()`, with `None` wherever a step finds nothing.
pub open spec fn text_at(value: JsonValue, k1: Seq<char>, k2: Seq<char>) -> Option<Seq<char>> {
    match value.field(k1) {
        Some(v) => match v.field(k2) {
            Some(w) => w.text(),
            None => None,
        },
        None => None,
    }
}

/// `value[k1][k2].as_str()`.
pub fn get_text_at<'a>(value: &'a JsonValue, k1: &str, k2: &str) -> (res: Option<&'a str>)
    ensures
        match text_at(*value, k1@, k2@) {
            Some(t) => res is Some && res->0@ == t,
            None => res is None,
        },
{
    match value.get_field(k1) {
        Some(v) => match v.get_field(k2) {
            Some(w) => w.as_text(),
            None => None,
        },
        None => None,
    }
}

} // verus!
