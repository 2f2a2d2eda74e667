//! A JSON document as a value, and the reading of the members of an object.

use crate::text::str_eq;
use vstd::prelude::*;

verus! {

/// A JSON document.
#[derive(Debug)]
pub enum Json {
    Null,
    Bool(bool),
    /// A whole number that is not negative.
    Unsigned(u64),
    /// A whole number that may be negative.
    Signed(i64),
    /// A number that is not whole. Nothing reads its value.
    Fraction,
    Text(String),
    Array(Vec<Json>),
    /// An object: its members, in the order of the document. A name may
    /// occur more than once.
    Object(Vec<(String, Json)>),
}

/// The values of the members named `key`, in their order.
pub open spec fn members_named(members: Seq<(String, Json)>, key: Seq<char>) -> Seq<Json>
    decreases members.len(),
{
    if members.len() == 0 {
        Seq::empty()
    } else if members.last().0@ == key {
        members_named(members.drop_last(), key).push(members.last().1)
    } else {
        members_named(members.drop_last(), key)
    }
}

/// The value of the one member named `key`; nothing where no member has
/// that name, and nothing where more than one has it.
pub open spec fn member(members: Seq<(String, Json)>, key: Seq<char>) -> Option<Json> {
    let values = members_named(members, key);
    if values.len() == 1 {
        Some(values[0])
    } else {
        None
    }
}

/// The value of a member that may be left out: nothing where no member is
/// named `key` or where the one that is holds null.
pub open spec fn optional_member(members: Seq<(String, Json)>, key: Seq<char>) -> Option<Json> {
    match member(members, key) {
        Some(Json::Null) => None,
        other => other,
    }
}

/// Whether the members are in order for a member that may be left out: the
/// name `key` occurs at most once.
pub open spec fn at_most_one(members: Seq<(String, Json)>, key: Seq<char>) -> bool {
    members_named(members, key).len() <= 1
}

/// The number that a document holds, where it is whole and fits in 64 bits
/// without a sign.
pub open spec fn as_u64(json: Json) -> Option<u64> {
    match json {
        Json::Unsigned(n) => Some(n),
        Json::Signed(n) => if n >= 0 {
            Some(n as u64)
        } else {
            None
        },
        _ => None,
    }
}

/// The number that a document holds, where it is whole and fits in 32 bits
/// without a sign.
pub open spec fn as_u32(json: Json) -> Option<u32> {
    match as_u64(json) {
        Some(n) => if n <= u32::MAX {
            Some(n as u32)
        } else {
            None
        },
        None => None,
    }
}

/// The text that a document holds, where it is a string.
pub open spec fn as_text(json: Json) -> Option<Seq<char>> {
    match json {
        Json::Text(text) => Some(text@),
        _ => None,
    }
}

/// The items that a document holds, where it is an array.
pub open spec fn as_array(json: Json) -> Option<Seq<Json>> {
    match json {
        Json::Array(items) => Some(items@),
        _ => None,
    }
}

/// The members of a document that is an object.
pub open spec fn members_of(json: Json) -> Seq<(String, Json)> {
    json->Object_0@
}

/// The number in the member `key`.
pub open spec fn u64_at(members: Seq<(String, Json)>, key: Seq<char>) -> Option<u64> {
    match member(members, key) {
        Some(json) => as_u64(json),
        None => None,
    }
}

/// The number in the member `key`.
pub open spec fn u32_at(members: Seq<(String, Json)>, key: Seq<char>) -> Option<u32> {
    match member(members, key) {
        Some(json) => as_u32(json),
        None => None,
    }
}

/// The text in the member `key`.
pub open spec fn text_at(members: Seq<(String, Json)>, key: Seq<char>) -> Option<Seq<char>> {
    match member(members, key) {
        Some(json) => as_text(json),
        None => None,
    }
}

/// The items in the member `key`.
pub open spec fn array_at(members: Seq<(String, Json)>, key: Seq<char>) -> Option<Seq<Json>> {
    match member(members, key) {
        Some(json) => as_array(json),
        None => None,
    }
}

/// What a search for a member found.
pub enum Found<'a> {
    /// No member has the name.
    Absent,
    /// One member has the name, and this is its value.
    One(&'a Json),
    /// More than one member has the name.
    Repeated,
}

/// Looks for the member named `key`.
pub fn find_member<'a>(members: &'a Vec<(String, Json)>, key: &str) -> (found: Found<'a>)
    ensures
        match found {
            Found::Absent => members_named(members@, key@).len() == 0,
            Found::One(json) => members_named(members@, key@) == seq![*json],
            Found::Repeated => members_named(members@, key@).len() >= 2,
        },
{
    let mut found: Found<'a> = Found::Absent;
    let mut i: usize = 0;
    while i < members.len()
        invariant
            0 <= i <= members.len(),
            match found {
                Found::Absent => members_named(members@.take(i as int), key@).len() == 0,
                Found::One(json) => members_named(members@.take(i as int), key@) == seq![*json],
                Found::Repeated => members_named(members@.take(i as int), key@).len() >= 2,
            },
        decreases members.len() - i,
    {
        proof {
            assert(members@.take(i + 1).drop_last() =~= members@.take(i as int));
            assert(members@.take(i + 1).last() == members@[i as int]);
        }
        if str_eq(members[i].0.as_str(), key) {
            found = match found {
                Found::Absent => {
                    proof {
                        assert(members_named(members@.take(i + 1), key@) =~= seq![members@[i as int].1]);
                    }
                    Found::One(&members[i].1)
                },
                _ => Found::Repeated,
            };
        }
        i = i + 1;
    }
    proof {
        assert(members@.take(members.len() as int) =~= members@);
    }
    found
}

/// The value of the one member named `key`.
pub fn get_member<'a>(members: &'a Vec<(String, Json)>, key: &str) -> (value: Option<&'a Json>)
    ensures
        match value {
            Some(json) => member(members@, key@) == Some(*json),
            None => member(members@, key@) is None,
        },
{
    match find_member(members, key) {
        Found::One(json) => Some(json),
        _ => None,
    }
}

/// The number in the member `key`.
pub fn get_u64(members: &Vec<(String, Json)>, key: &str) -> (value: Option<u64>)
    ensures
        value == u64_at(members@, key@),
{
    match get_member(members, key) {
        Some(Json::Unsigned(n)) => Some(*n),
        Some(Json::Signed(n)) => if *n >= 0 {
            Some(*n as u64)
        } else {
            None
        },
        _ => None,
    }
}

/// The number in the member `key`.
pub fn get_u32(members: &Vec<(String, Json)>, key: &str) -> (value: Option<u32>)
    ensures
        value == u32_at(members@, key@),
{
    match get_u64(members, key) {
        Some(n) => if n <= 0xffff_ffff {
            Some(n as u32)
        } else {
            None
        },
        None => None,
    }
}

/// The text in the member `key`.
pub fn get_text<'a>(members: &'a Vec<(String, Json)>, key: &str) -> (value: Option<&'a String>)
    ensures
        match value {
            Some(text) => text_at(members@, key@) == Some(text@),
            None => text_at(members@, key@) is None,
        },
{
    match get_member(members, key) {
        Some(Json::Text(text)) => Some(text),
        _ => None,
    }
}

/// The items in the member `key`.
pub fn get_array<'a>(members: &'a Vec<(String, Json)>, key: &str) -> (value: Option<&'a Vec<Json>>)
    ensures
        match value {
            Some(items) => array_at(members@, key@) == Some(items@),
            None => array_at(members@, key@) is None,
        },
{
    match get_member(members, key) {
        Some(Json::Array(items)) => Some(items),
        _ => None,
    }
}

} // verus!
