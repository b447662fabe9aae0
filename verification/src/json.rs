//! A JSON document as plain values, with the lookups `serde_json::Value`
//! offers (`value["key"]`, `as_str`, `as_array`, `as_bool`, `is_null`).

use vstd::prelude::*;

use crate::text::str_equal;

verus! {

/// A JSON value. Object members keep their order; a key occurs at most
/// once in a document that came from a parser.
#[derive(Debug)]
pub enum Json {
    Null,
    Bool(bool),
    /// A number, as its literal text.
    Number(String),
    Str(String),
    Array(Vec<Json>),
    Object(Vec<(String, Json)>),
}

/// The value of the first member named `key`, or `Null`.
pub open spec fn member_value(entries: Seq<(String, Json)>, key: Seq<char>) -> Json
    decreases entries.len(),
{
    if entries.len() == 0 {
        Json::Null
    } else if entries[0].0@ == key {
        entries[0].1
    } else {
        member_value(entries.skip(1), key)
    }
}

/// `value[key]`: the member's value for an object holding `key`, `Null`
/// for anything else.
pub open spec fn json_get(j: Json, key: Seq<char>) -> Json {
    match j {
        Json::Object(entries) => member_value(entries@, key),
        _ => Json::Null,
    }
}

/// `value.as_str()`.
pub open spec fn json_str(j: Json) -> Option<Seq<char>> {
    match j {
        Json::Str(s) => Some(s@),
        _ => None,
    }
}

/// `value.as_bool()`.
pub open spec fn json_bool(j: Json) -> Option<bool> {
    match j {
        Json::Bool(b) => Some(b),
        _ => None,
    }
}

/// `value.as_array().into_iter().flatten()`: the items of an array, none
/// for anything else.
pub open spec fn json_items(j: Json) -> Seq<Json> {
    match j {
        Json::Array(v) => v@,
        _ => Seq::<Json>::empty(),
    }
}

/// The first item satisfying `pred`.
pub open spec fn first_match(items: Seq<Json>, pred: spec_fn(Json) -> bool) -> Option<Json>
    decreases items.len(),
{
    if items.len() == 0 {
        None
    } else if pred(items[0]) {
        Some(items[0])
    } else {
        first_match(items.skip(1), pred)
    }
}

/// The string items, in order (`filter_map(as_str)`).
pub open spec fn string_items(items: Seq<Json>) -> Seq<Seq<char>>
    decreases items.len(),
{
    if items.len() == 0 {
        Seq::<Seq<char>>::empty()
    } else {
        string_items(items.drop_last()) + match json_str(items.last()) {
            Some(s) => seq![s],
            None => Seq::<Seq<char>>::empty(),
        }
    }
}

pub proof fn lemma_first_match_step(items: Seq<Json>, i: int, pred: spec_fn(Json) -> bool)
    requires
        0 <= i < items.len(),
    ensures
        first_match(items.skip(i), pred) == if pred(items[i]) {
            Some(items[i])
        } else {
            first_match(items.skip(i + 1), pred)
        },
{
    assert(items.skip(i).skip(1) =~= items.skip(i + 1));
    assert(items.skip(i)[0] == items[i]);
}

pub proof fn lemma_first_match_end(items: Seq<Json>, pred: spec_fn(Json) -> bool)
    ensures
        first_match(items.skip(items.len() as int), pred) is None,
{
    assert(items.skip(items.len() as int) =~= Seq::<Json>::empty());
}

impl Json {
    /// `self[key]`; `None` stands for the `Null` that a missing member
    /// gives.
    pub fn get(&self, key: &str) -> (r: Option<&Json>)
        ensures
            json_get(*self, key@) == match r {
                Some(v) => *v,
                None => Json::Null,
            },
    {
        match self {
            Json::Object(entries) => {
                let mut i: usize = 0;
                assert(entries@.skip(0) =~= entries@);
                while i < entries.len()
                    invariant
                        i <= entries@.len(),
                        json_get(*self, key@) == member_value(entries@, key@),
                        member_value(entries@, key@) == member_value(entries@.skip(i as int), key@),
                    decreases entries@.len() - i,
                {
                    proof {
                        assert(entries@.skip(i as int).skip(1) =~= entries@.skip(i + 1));
                        assert(entries@.skip(i as int)[0] == entries@[i as int]);
                    }
                    if str_equal(entries[i].0.as_str(), key) {
                        assert(entries@.skip(i as int)[0].0@ == key@);
                        assert(member_value(entries@.skip(i as int), key@) == entries@[i as int].1);
                        return Some(&entries[i].1);
                    }
                    i = i + 1;
                }
                assert(entries@.skip(i as int) =~= Seq::<(String, Json)>::empty());
                None
            },
            _ => None,
        }
    }

    /// `self.as_str()`.
    pub fn as_str(&self) -> (r: Option<&String>)
        ensures
            json_str(*self) == match r {
                Some(s) => Some(s@),
                None => None,
            },
    {
        match self {
            Json::Str(s) => Some(s),
            _ => None,
        }
    }

    /// `self.as_bool()`.
    pub fn as_bool(&self) -> (r: Option<bool>)
        ensures
            r == json_bool(*self),
    {
        match self {
            Json::Bool(b) => Some(*b),
            _ => None,
        }
    }

    /// `self.is_null()`.
    pub fn is_null(&self) -> (r: bool)
        ensures
            r == (*self is Null),
    {
        match self {
            Json::Null => true,
            _ => false,
        }
    }
}

/// The string a member holds, `None` when it is missing or no string.
pub open spec fn member_str(j: Json, key: Seq<char>) -> Option<Seq<char>> {
    json_str(json_get(j, key))
}

/// The string member `key` of `j`, if it holds one.
pub fn member_string<'a>(j: &'a Json, key: &str) -> (r: Option<&'a String>)
    ensures
        member_str(*j, key@) == match r {
            Some(s) => Some(s@),
            None => None,
        },
{
    match j.get(key) {
        Some(v) => v.as_str(),
        None => None,
    }
}

/// The items member `key` of `j` holds, if it is an array.
pub fn member_items<'a>(j: &'a Json, key: &str) -> (r: Option<&'a Vec<Json>>)
    ensures
        json_items(json_get(*j, key@)) == match r {
            Some(v) => v@,
            None => Seq::<Json>::empty(),
        },
{
    match j.get(key) {
        Some(Json::Array(v)) => Some(v),
        _ => None,
    }
}

} // verus!
