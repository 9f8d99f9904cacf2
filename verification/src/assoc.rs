//! Lists of key/value pairs read as finite maps keyed by text.
//!
//! A list denotes the map in which each key is bound to the value of the
//! last pair that carries it, which is how a map filled pair by pair in
//! list order ends up.

use vstd::prelude::*;

verus! {

/// The map denoted by `pairs`: later pairs override earlier ones.
pub open spec fn assoc_map<V>(pairs: Seq<(String, V)>) -> Map<Seq<char>, V>
    decreases pairs.len(),
{
    if pairs.len() == 0 {
        Map::empty()
    } else {
        assoc_map(pairs.drop_last()).insert(pairs.last().0@, pairs.last().1)
    }
}

/// `i` is the last position of `pairs` whose key is `key`.
pub open spec fn is_last_key_index<V>(pairs: Seq<(String, V)>, key: Seq<char>, i: int) -> bool {
    &&& 0 <= i < pairs.len()
    &&& pairs[i].0@ == key
    &&& forall|j: int| i < j < pairs.len() ==> #[trigger] pairs[j].0@ != key
}

/// No pair of `pairs` carries `key`.
pub open spec fn key_absent<V>(pairs: Seq<(String, V)>, key: Seq<char>) -> bool {
    forall|j: int| 0 <= j < pairs.len() ==> #[trigger] pairs[j].0@ != key
}

pub proof fn lemma_assoc_absent<V>(pairs: Seq<(String, V)>, key: Seq<char>)
    requires
        key_absent(pairs, key),
    ensures
        !assoc_map(pairs).dom().contains(key),
    decreases pairs.len(),
{
    if pairs.len() > 0 {
        let init = pairs.drop_last();
        assert forall|j: int| 0 <= j < init.len() implies #[trigger] init[j].0@ != key by {
            assert(init[j] == pairs[j]);
        }
        lemma_assoc_absent(init, key);
        assert(pairs.last() == pairs[pairs.len() - 1]);
    }
}

pub proof fn lemma_assoc_last<V>(pairs: Seq<(String, V)>, key: Seq<char>, i: int)
    requires
        is_last_key_index(pairs, key, i),
    ensures
        assoc_map(pairs).dom().contains(key),
        assoc_map(pairs)[key] == pairs[i].1,
    decreases pairs.len(),
{
    assert(pairs.last() == pairs[pairs.len() - 1]);
    if i < pairs.len() - 1 {
        let init = pairs.drop_last();
        assert(init[i] == pairs[i]);
        assert forall|j: int| i < j < init.len() implies #[trigger] init[j].0@ != key by {
            assert(init[j] == pairs[j]);
        }
        lemma_assoc_last(init, key, i);
    }
}

pub proof fn lemma_assoc_update_last<V>(pairs: Seq<(String, V)>, i: int, entry: (String, V))
    requires
        is_last_key_index(pairs, entry.0@, i),
    ensures
        assoc_map(pairs.update(i, entry)) == assoc_map(pairs).insert(entry.0@, entry.1),
    decreases pairs.len(),
{
    let key = entry.0@;
    let updated = pairs.update(i, entry);
    assert(pairs.last() == pairs[pairs.len() - 1]);
    assert(updated.last() == updated[updated.len() - 1]);
    if i == pairs.len() - 1 {
        assert(updated.drop_last() =~= pairs.drop_last());
        assert(assoc_map(updated) =~= assoc_map(pairs).insert(key, entry.1));
    } else {
        let init = pairs.drop_last();
        assert(init[i] == pairs[i]);
        assert forall|j: int| i < j < init.len() implies #[trigger] init[j].0@ != key by {
            assert(init[j] == pairs[j]);
        }
        lemma_assoc_update_last(init, i, entry);
        assert(updated.drop_last() =~= init.update(i, entry));
        assert(updated.last() == pairs.last());
        assert(pairs.last().0@ != key);
        assert(assoc_map(updated) =~= assoc_map(pairs).insert(key, entry.1));
    }
}

pub proof fn lemma_assoc_push<V>(pairs: Seq<(String, V)>, entry: (String, V))
    ensures
        assoc_map(pairs.push(entry)) == assoc_map(pairs).insert(entry.0@, entry.1),
{
    assert(pairs.push(entry).drop_last() =~= pairs);
    assert(pairs.push(entry).last() == entry);
}

/// The position of the last pair whose key is `key`, if any.
pub fn find_last_key<V>(pairs: &Vec<(String, V)>, key: &String) -> (r: Option<usize>)
    ensures
        match r {
            Some(i) => is_last_key_index(pairs@, key@, i as int),
            None => key_absent(pairs@, key@),
        },
{
    let mut i = pairs.len();
    while i > 0
        invariant
            i <= pairs@.len(),
            forall|j: int| i <= j < pairs@.len() ==> #[trigger] pairs@[j].0@ != key@,
        decreases i,
    {
        i = i - 1;
        if pairs[i].0 == *key {
            return Some(i);
        }
    }
    None
}

/// The value bound to `key`, if any.
pub fn assoc_get<'a, V>(pairs: &'a Vec<(String, V)>, key: &String) -> (r: Option<&'a V>)
    ensures
        match r {
            Some(v) => assoc_map(pairs@).dom().contains(key@) && *v == assoc_map(pairs@)[key@],
            None => !assoc_map(pairs@).dom().contains(key@),
        },
{
    match find_last_key(pairs, key) {
        Some(i) => {
            proof {
                lemma_assoc_last(pairs@, key@, i as int);
            }
            Some(&pairs[i].1)
        },
        None => {
            proof {
                lemma_assoc_absent(pairs@, key@);
            }
            None
        },
    }
}

/// Binds `key` to `value`, replacing the binding it had.
pub fn assoc_insert<V>(pairs: &mut Vec<(String, V)>, key: String, value: V)
    ensures
        assoc_map(final(pairs)@) == assoc_map(old(pairs)@).insert(key@, value),
{
    match find_last_key(pairs, &key) {
        Some(i) => {
            proof {
                lemma_assoc_update_last(pairs@, i as int, (key, value));
            }
            pairs.set(i, (key, value));
        },
        None => {
            proof {
                lemma_assoc_push(pairs@, (key, value));
            }
            pairs.push((key, value));
        },
    }
}

} // verus!
