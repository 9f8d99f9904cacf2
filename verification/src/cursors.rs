//! Where the scraper left off with each node.

use vstd::prelude::*;
use crate::assoc::{assoc_map, assoc_get, assoc_insert};

verus! {

/// For each node address, the journal cursor of the last entry taken from
/// that node.
pub struct Cursors {
    entries: Vec<(String, String)>,
}

impl View for Cursors {
    type V = Map<Seq<char>, Seq<char>>;

    closed spec fn view(&self) -> Map<Seq<char>, Seq<char>> {
        assoc_map(self.entries@).map_values(|s: String| s@)
    }
}

impl Cursors {
    /// No cursor for any node.
    pub fn new() -> (r: Cursors)
        ensures
            r@ == Map::<Seq<char>, Seq<char>>::empty(),
    {
        let r = Cursors { entries: Vec::new() };
        proof {
            assert(r.entries@ =~= Seq::<(String, String)>::empty());
            assert(r@ =~= Map::<Seq<char>, Seq<char>>::empty());
        }
        r
    }

    /// The cursor recorded for `node`, if any.
    pub fn get(&self, node: &String) -> (r: Option<&String>)
        ensures
            match r {
                Some(c) => self@.dom().contains(node@) && self@[node@] == c@,
                None => !self@.dom().contains(node@),
            },
    {
        assoc_get(&self.entries, node)
    }

    /// Records `cursor` for `node`, replacing what was recorded for it.
    pub fn insert(&mut self, node: String, cursor: String)
        ensures
            final(self)@ == old(self)@.insert(node@, cursor@),
    {
        let ghost c = cursor;
        assoc_insert(&mut self.entries, node, cursor);
        proof {
            assert(self@ =~= old(self)@.insert(node@, c@));
        }
    }
}

} // verus!
