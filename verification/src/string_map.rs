//! An association list keyed by strings that remembers insertion order.

use vstd::prelude::*;

use crate::text::same_text;

verus! {

/// The map that a list of pairs stands for; a later pair overrides an earlier
/// one with the same key.
pub open spec fn pairs_map<V>(pairs: Seq<(Seq<char>, V)>) -> Map<Seq<char>, V>
    decreases pairs.len(),
{
    if pairs.len() == 0 {
        Map::empty()
    } else {
        pairs_map(pairs.drop_last()).insert(pairs.last().0, pairs.last().1)
    }
}

/// The position of the last pair with this key.
pub open spec fn position_of<V>(pairs: Seq<(Seq<char>, V)>, key: Seq<char>) -> Option<int>
    decreases pairs.len(),
{
    if pairs.len() == 0 {
        None
    } else if pairs.last().0 == key {
        Some(pairs.len() - 1)
    } else {
        position_of(pairs.drop_last(), key)
    }
}

/// The pairs after `key` was set to `value`: in place where the key stands
/// already, at the end otherwise.
pub open spec fn upserted<V>(pairs: Seq<(Seq<char>, V)>, key: Seq<char>, value: V) -> Seq<
    (Seq<char>, V),
> {
    match position_of(pairs, key) {
        Some(i) => pairs.update(i, (key, value)),
        None => pairs.push((key, value)),
    }
}

/// No two pairs share a key.
pub open spec fn distinct_keys<V>(pairs: Seq<(Seq<char>, V)>) -> bool {
    forall|i: int, j: int|
        0 <= i < j < pairs.len() ==> (#[trigger] pairs[i]).0 != (#[trigger] pairs[j]).0
}

/// The map and the position of a key agree.
pub proof fn lemma_lookup<V>(pairs: Seq<(Seq<char>, V)>, key: Seq<char>)
    ensures
        match position_of(pairs, key) {
            Some(i) => {
                &&& 0 <= i < pairs.len()
                &&& pairs[i].0 == key
                &&& pairs_map(pairs).contains_key(key)
                &&& pairs_map(pairs)[key] == pairs[i].1
                &&& forall|j: int| i < j < pairs.len() ==> (#[trigger] pairs[j]).0 != key
            },
            None => {
                &&& !pairs_map(pairs).contains_key(key)
                &&& forall|j: int| 0 <= j < pairs.len() ==> (#[trigger] pairs[j]).0 != key
            },
        },
    decreases pairs.len(),
{
    if pairs.len() > 0 {
        lemma_lookup(pairs.drop_last(), key);
        let shorter = pairs.drop_last();
        assert forall|j: int| 0 <= j < pairs.len() - 1 implies pairs[j] == #[trigger] shorter[j] by {}
        assert forall|j: int| 0 <= j < pairs.len() && (position_of(pairs, key) matches Some(i) ==> i < j)
            implies (#[trigger] pairs[j]).0 != key by {
            if j < pairs.len() - 1 {
                assert(shorter[j] == pairs[j]);
            }
        }
    }
}

/// A position at which the key stands and after which it does not.
pub proof fn lemma_position_unique<V>(pairs: Seq<(Seq<char>, V)>, key: Seq<char>, i: int)
    requires
        0 <= i < pairs.len(),
        pairs[i].0 == key,
        forall|j: int| i < j < pairs.len() ==> (#[trigger] pairs[j]).0 != key,
    ensures
        position_of(pairs, key) == Some(i),
{
    lemma_lookup(pairs, key);
}

/// Setting a key in the list sets it in the map.
pub proof fn lemma_upserted<V>(pairs: Seq<(Seq<char>, V)>, key: Seq<char>, value: V)
    ensures
        pairs_map(upserted(pairs, key, value)) == pairs_map(pairs).insert(key, value),
        distinct_keys(pairs) ==> distinct_keys(upserted(pairs, key, value)),
    decreases pairs.len(),
{
    lemma_lookup(pairs, key);
    match position_of(pairs, key) {
        Some(i) => {
            lemma_update(pairs, i, key, value);
        },
        None => {
            assert(pairs.push((key, value)).drop_last() =~= pairs);
        },
    }
}

proof fn lemma_update<V>(pairs: Seq<(Seq<char>, V)>, i: int, key: Seq<char>, value: V)
    requires
        0 <= i < pairs.len(),
        pairs[i].0 == key,
        forall|j: int| i < j < pairs.len() ==> (#[trigger] pairs[j]).0 != key,
    ensures
        pairs_map(pairs.update(i, (key, value))) == pairs_map(pairs).insert(key, value),
    decreases pairs.len(),
{
    let updated = pairs.update(i, (key, value));
    let shorter = pairs.drop_last();
    if i == pairs.len() - 1 {
        assert(updated.drop_last() =~= shorter);
        assert(pairs_map(updated) =~= pairs_map(pairs).insert(key, value));
    } else {
        assert(updated.drop_last() =~= shorter.update(i, (key, value)));
        assert forall|j: int| i < j < shorter.len() implies (#[trigger] shorter[j]).0 != key by {
            assert(shorter[j] == pairs[j]);
        }
        lemma_update(shorter, i, key, value);
        assert(pairs[pairs.len() - 1].0 != key);
        assert(pairs_map(updated) =~= pairs_map(pairs).insert(key, value));
    }
}

/// With distinct keys the map has as many keys as the list has pairs.
pub proof fn lemma_distinct_len<V>(pairs: Seq<(Seq<char>, V)>)
    requires
        distinct_keys(pairs),
    ensures
        pairs_map(pairs).dom().finite(),
        pairs_map(pairs).len() == pairs.len(),
    decreases pairs.len(),
{
    if pairs.len() > 0 {
        let shorter = pairs.drop_last();
        assert forall|i: int, j: int| 0 <= i < j < shorter.len() implies (#[trigger] shorter[i]).0
            != (#[trigger] shorter[j]).0 by {
            assert(shorter[i] == pairs[i] && shorter[j] == pairs[j]);
        }
        lemma_distinct_len(shorter);
        lemma_lookup(shorter, pairs.last().0);
        if let Some(i) = position_of(shorter, pairs.last().0) {
            assert(shorter[i] == pairs[i]);
            assert(pairs[i].0 != pairs[pairs.len() - 1].0);
        }
    }
}

/// The pairs with `f` applied to each value.
pub open spec fn mapped<V, W>(pairs: Seq<(Seq<char>, V)>, f: spec_fn(V) -> W) -> Seq<
    (Seq<char>, W),
> {
    pairs.map_values(|p: (Seq<char>, V)| (p.0, f(p.1)))
}

/// Applying a function to the values moves no pair, and goes through setting
/// a key.
pub proof fn lemma_mapped<V, W>(
    pairs: Seq<(Seq<char>, V)>,
    f: spec_fn(V) -> W,
    key: Seq<char>,
    value: V,
)
    ensures
        position_of(mapped(pairs, f), key) == position_of(pairs, key),
        mapped(upserted(pairs, key, value), f) == upserted(mapped(pairs, f), key, f(value)),
    decreases pairs.len(),
{
    if pairs.len() > 0 {
        lemma_mapped(pairs.drop_last(), f, key, value);
        assert(mapped(pairs, f).drop_last() =~= mapped(pairs.drop_last(), f));
    }
    lemma_lookup(pairs, key);
    assert(mapped(upserted(pairs, key, value), f) =~= upserted(mapped(pairs, f), key, f(value)));
}

/// Values keyed by strings, in the order in which the keys were first set.
#[derive(Clone, Debug)]
pub struct StringMap<V> {
    /// The pairs, oldest key first.
    pub entries: Vec<(String, V)>,
}

impl<V> View for StringMap<V> {
    type V = Map<Seq<char>, V>;

    open spec fn view(&self) -> Map<Seq<char>, V> {
        pairs_map(self.pairs())
    }
}

impl<V> StringMap<V> {
    /// The pairs, each key by its characters.
    pub open spec fn pairs(&self) -> Seq<(Seq<char>, V)> {
        self.entries@.map_values(|entry: (String, V)| (entry.0@, entry.1))
    }

    /// A map without keys.
    pub fn new() -> (map: Self)
        ensures
            map@ == Map::<Seq<char>, V>::empty(),
            map.pairs() == Seq::<(Seq<char>, V)>::empty(),
    {
        let map = StringMap { entries: Vec::new() };
        assert(map.pairs() =~= Seq::empty());
        map
    }

    /// The number of pairs; with distinct keys, the number of keys.
    pub fn len(&self) -> (count: usize)
        ensures
            count == self.pairs().len(),
            distinct_keys(self.pairs()) ==> count == self@.len(),
    {
        proof {
            if distinct_keys(self.pairs()) {
                lemma_distinct_len(self.pairs());
            }
        }
        self.entries.len()
    }

    /// Whether no key is set.
    pub fn is_empty(&self) -> (empty: bool)
        ensures
            empty == (self@ == Map::<Seq<char>, V>::empty()),
    {
        let empty = self.entries.len() == 0;
        proof {
            if !empty {
                let key = self.pairs().last().0;
                lemma_lookup(self.pairs(), key);
                assert(self@.contains_key(key));
            }
        }
        empty
    }

    fn find(&self, key: &str) -> (at: Option<usize>)
        ensures
            match at {
                Some(i) => position_of(self.pairs(), key@) == Some(i as int) && i < self.entries.len(),
                None => position_of(self.pairs(), key@) is None,
            },
    {
        let mut i: usize = self.entries.len();
        while i > 0
            invariant
                i <= self.entries.len(),
                forall|j: int| i <= j < self.pairs().len() ==> (#[trigger] self.pairs()[j]).0 != key@,
            decreases i,
        {
            if same_text(self.entries[i - 1].0.as_str(), key) {
                proof {
                    assert(self.pairs()[i - 1].0 == key@);
                    lemma_position_unique(self.pairs(), key@, i - 1);
                }
                return Some(i - 1);
            }
            assert(self.pairs()[i - 1].0 != key@);
            i = i - 1;
        }
        proof {
            lemma_lookup(self.pairs(), key@);
        }
        None
    }

    /// The value of `key`, if it is set.
    pub fn get(&self, key: &str) -> (value: Option<&V>)
        ensures
            match value {
                Some(v) => self@.contains_key(key@) && self@[key@] == *v,
                None => !self@.contains_key(key@),
            },
    {
        proof {
            lemma_lookup(self.pairs(), key@);
        }
        match self.find(key) {
            Some(i) => Some(&self.entries[i].1),
            None => None,
        }
    }

    /// Sets `key` to `value`.
    pub fn insert(&mut self, key: String, value: V)
        ensures
            final(self)@ == old(self)@.insert(key@, value),
            final(self).pairs() == upserted(old(self).pairs(), key@, value),
            distinct_keys(old(self).pairs()) ==> distinct_keys(final(self).pairs()),
    {
        let ghost before = self.pairs();
        proof {
            lemma_upserted(before, key@, value);
            lemma_lookup(before, key@);
        }
        let found = self.find(key.as_str());
        match found {
            Some(i) => {
                self.entries.set(i, (key, value));
                assert(self.pairs() =~= before.update(i as int, (key@, value)));
            },
            None => {
                self.entries.push((key, value));
                assert(self.pairs() =~= before.push((key@, value)));
            },
        }
    }
}

}
