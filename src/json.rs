use crate::text::{same_text, decimal, to_decimal};
use vstd::prelude::*;

verus! {

/// A JSON value. Numbers keep their textual form; objects keep their
/// entries in order.
#[derive(Debug, PartialEq, Eq)]
pub enum Json {
    Null,
    Bool(bool),
    Number(String),
    Str(String),
    Array(Vec<Json>),
    Object(Vec<(String, Json)>),
}

/// The value of the first entry named `key`.
pub open spec fn lookup(entries: Seq<(String, Json)>, key: Seq<char>) -> Option<Json>
    decreases entries.len(),
{
    if entries.len() == 0 {
        None
    } else if entries[0].0@ == key {
        Some(entries[0].1)
    } else {
        lookup(entries.subrange(1, entries.len() as int), key)
    }
}

/// The member `key` of an object; nothing for other values.
pub open spec fn field(v: Json, key: Seq<char>) -> Option<Json> {
    match v {
        Json::Object(entries) => lookup(entries@, key),
        _ => None,
    }
}

/// The text of a string value.
pub open spec fn text(v: Json) -> Option<Seq<char>> {
    match v {
        Json::Str(s) => Some(s@),
        _ => None,
    }
}

/// The text of the string member `key` of an object.
pub open spec fn text_field(v: Json, key: Seq<char>) -> Option<Seq<char>> {
    match field(v, key) {
        Some(f) => text(f),
        None => None,
    }
}

/// An object with no member.
pub open spec fn is_empty_object(v: Json) -> bool {
    v matches Json::Object(e) && e@.len() == 0
}

/// An object whose one member `key` is a number written `n` in decimal.
pub open spec fn is_number_object(v: Json, key: Seq<char>, n: nat) -> bool {
    &&& v matches Json::Object(e)
    &&& e@.len() == 1
    &&& e@[0].0@ == key
    &&& e@[0].1 matches Json::Number(s)
    &&& s@ == decimal(n)
}

/// An object whose one member `key` is the string `value`.
pub open spec fn is_text_object(v: Json, key: Seq<char>, value: Seq<char>) -> bool {
    &&& v matches Json::Object(e)
    &&& e@.len() == 1
    &&& e@[0].0@ == key
    &&& text(e@[0].1) == Some(value)
}

proof fn lemma_lookup_step(entries: Seq<(String, Json)>, i: int, key: Seq<char>)
    requires
        0 <= i < entries.len(),
    ensures
        lookup(entries.subrange(i, entries.len() as int), key) == if entries[i].0@ == key {
            Some(entries[i].1)
        } else {
            lookup(entries.subrange(i + 1, entries.len() as int), key)
        },
{
    let rest = entries.subrange(i, entries.len() as int);
    assert(rest[0] == entries[i]);
    assert(rest.subrange(1, rest.len() as int) =~= entries.subrange(i + 1, entries.len() as int));
}

impl Json {
    /// The member `key`, where `self` is an object that has one.
    pub fn get(&self, key: &str) -> (r: Option<&Json>)
        ensures
            r matches Some(f) ==> field(*self, key@) == Some(*f),
            r is None ==> field(*self, key@) is None,
    {
        match self {
            Json::Object(entries) => {
                let mut i: usize = 0;
                assert(entries@.subrange(0, entries@.len() as int) =~= entries@);
                while i < entries.len()
                    invariant
                        i <= entries@.len(),
                        field(*self, key@) == lookup(entries@, key@),
                        lookup(entries@.subrange(i as int, entries@.len() as int), key@) == lookup(
                            entries@,
                            key@,
                        ),
                    decreases entries@.len() - i,
                {
                    proof {
                        lemma_lookup_step(entries@, i as int, key@);
                    }
                    if same_text(entries[i].0.as_str(), key) {
                        assert(entries@[i as int].0@ == key@);
                        return Some(&entries[i].1);
                    }
                    i += 1;
                }
                None
            },
            _ => None,
        }
    }

    /// The text of a string value.
    pub fn as_str(&self) -> (r: Option<&String>)
        ensures
            r matches Some(s) ==> text(*self) == Some(s@),
            r is None ==> text(*self) is None,
    {
        match self {
            Json::Str(s) => Some(s),
            _ => None,
        }
    }

    /// An object with no member.
    pub fn empty_object() -> (r: Json)
        ensures
            is_empty_object(r),
    {
        Json::Object(Vec::new())
    }

    /// An object with one string member.
    pub fn text_object(key: &str, value: &str) -> (r: Json)
        ensures
            is_text_object(r, key@, value@),
    {
        let mut e: Vec<(String, Json)> = Vec::new();
        e.push((key.to_owned(), Json::Str(value.to_owned())));
        Json::Object(e)
    }

    /// An object with one numeric member.
    pub fn number_object(key: &str, n: u64) -> (r: Json)
        ensures
            is_number_object(r, key@, n as nat),
    {
        let mut e: Vec<(String, Json)> = Vec::new();
        e.push((key.to_owned(), Json::Number(to_decimal(n))));
        Json::Object(e)
    }
}

} // verus!
