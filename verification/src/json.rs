//! JSON values as the scraper sees them.
//!
//! Entries arrive from the nodes as JSON and leave as JSON. The scraper
//! only looks at the top of a value: whether a response is an array, what
//! an entry holds under a key, and which members it sets on an entry.
//! Numbers are kept as the text that denotes them; object members are kept
//! in a list that is read as a map (see `assoc`).

use vstd::prelude::*;
use crate::assoc::{assoc_map, assoc_get, assoc_insert};

verus! {

/// A JSON value.
#[derive(Debug, PartialEq)]
pub enum Json {
    Null,
    Bool(bool),
    /// A number, as the text that denotes it.
    Number(String),
    Str(String),
    Array(Vec<Json>),
    /// An object: its members, in the order they were set.
    Object(Vec<(String, Json)>),
}

/// The members of `j` by key; empty for anything but an object.
pub open spec fn members(j: Json) -> Map<Seq<char>, Json> {
    match j {
        Json::Object(fields) => assoc_map(fields@),
        _ => Map::empty(),
    }
}

/// `j[key]` read as serde_json reads it: the member under `key` of an
/// object, and null when `j` is no object or has no such member.
pub open spec fn index_key(j: Json, key: Seq<char>) -> Json {
    if members(j).dom().contains(key) {
        members(j)[key]
    } else {
        Json::Null
    }
}

/// The text of a JSON string; `None` for any other value.
pub open spec fn string_view(j: Json) -> Option<Seq<char>> {
    match j {
        Json::Str(s) => Some(s@),
        _ => None,
    }
}

/// A member can be set on `j`: it is an object, or null, which becomes an
/// empty object first. Setting a member on any other value is refused.
pub open spec fn can_set_member(j: Json) -> bool {
    j is Null || j is Object
}

/// `j` with `key` bound to `value`: `j[key] = value` on a null or an
/// object.
pub fn with_member(j: Json, key: String, value: Json) -> (r: Json)
    requires
        can_set_member(j),
    ensures
        r is Object,
        members(r) == members(j).insert(key@, value),
{
    let mut fields: Vec<(String, Json)> = match j {
        Json::Object(fields) => fields,
        _ => Vec::new(),
    };
    proof {
        assert(assoc_map(fields@) == members(j)) by {
            if !(j is Object) {
                assert(fields@ =~= Seq::<(String, Json)>::empty());
                assert(assoc_map(fields@) =~= Map::<Seq<char>, Json>::empty());
            }
        }
    }
    assoc_insert(&mut fields, key, value);
    Json::Object(fields)
}

/// The text of the string under `key`: `Some` exactly when `j[key]` is a
/// JSON string.
pub fn string_member<'a>(j: &'a Json, key: &String) -> (r: Option<&'a String>)
    ensures
        match r {
            Some(s) => string_view(index_key(*j, key@)) == Some(s@),
            None => string_view(index_key(*j, key@)) is None,
        },
{
    match j {
        Json::Object(fields) => match assoc_get(fields, key) {
            Some(v) => match v {
                Json::Str(s) => Some(s),
                _ => None,
            },
            None => None,
        },
        _ => None,
    }
}

/// Reading a member gives back what was last set under its key, and
/// setting a member leaves every other member as it was: this holds of `r`
/// whenever `r` is `j` with `key` set to `value`, as `with_member` makes it.
pub proof fn lemma_member_read_after_write(
    r: Json,
    j: Json,
    key: Seq<char>,
    value: Json,
    other: Seq<char>,
)
    requires
        members(r) == members(j).insert(key, value),
    ensures
        index_key(r, key) == value,
        other != key ==> index_key(r, other) == index_key(j, other),
{
}

} // verus!
