//! A string-keyed association list with a `Map` view.
//!
//! `StrMap` is the in-memory stand-in for the host's key-addressed record
//! collection: a vector of `(key, value)` pairs whose keys are pairwise
//! distinct, viewed as a `Map<Seq<char>, _>` over the key views. Writes
//! overwrite in place, so a key maps to at most one value at a time.

use vstd::prelude::*;

verus! {

/// A mapping from string keys to values, backed by a vector of pairs with
/// pairwise-distinct keys.
pub struct StrMap<V> {
    entries: Vec<(String, V)>,
}

/// The `Map` denoted by a sequence of `(key, value)` pairs: later pairs win.
spec fn map_of<V: View>(entries: Seq<(String, V)>) -> Map<Seq<char>, V::V>
    decreases entries.len(),
{
    if entries.len() == 0 {
        Map::empty()
    } else {
        map_of(entries.drop_last()).insert(entries.last().0@, entries.last().1@)
    }
}

/// Keys of `entries` are pairwise distinct (as character sequences).
spec fn distinct_keys<V>(entries: Seq<(String, V)>) -> bool {
    forall|i: int, j: int|
        0 <= i < entries.len() && 0 <= j < entries.len() && #[trigger] entries[i].0@
            == #[trigger] entries[j].0@ ==> i == j
}

/// A key that no pair carries is not in the denoted map.
proof fn lemma_map_of_absent<V: View>(entries: Seq<(String, V)>, k: Seq<char>)
    requires
        forall|j: int| 0 <= j < entries.len() ==> (#[trigger] entries[j].0@) != k,
    ensures
        !map_of(entries).contains_key(k),
    decreases entries.len(),
{
    if entries.len() > 0 {
        lemma_map_of_absent(entries.drop_last(), k);
    }
}

/// If the pair at `i` is the last one carrying key `k`, the denoted map sends
/// `k` to that pair's value.
proof fn lemma_map_of_found<V: View>(entries: Seq<(String, V)>, i: int, k: Seq<char>)
    requires
        0 <= i < entries.len(),
        entries[i].0@ == k,
        forall|j: int| i < j < entries.len() ==> (#[trigger] entries[j].0@) != k,
    ensures
        map_of(entries).contains_key(k),
        map_of(entries)[k] == entries[i].1@,
    decreases entries.len(),
{
    if i == entries.len() - 1 {
    } else {
        lemma_map_of_found(entries.drop_last(), i, k);
    }
}

/// Replacing the value of the unique pair that carries key `k` denotes the
/// same map as inserting the new value for `k`.
proof fn lemma_map_of_update<V: View>(entries: Seq<(String, V)>, i: int, p: (String, V))
    requires
        distinct_keys(entries),
        0 <= i < entries.len(),
        entries[i].0@ == p.0@,
    ensures
        map_of(entries.update(i, p)) == map_of(entries).insert(p.0@, p.1@),
    decreases entries.len(),
{
    let k = p.0@;
    if i == entries.len() - 1 {
        assert(entries.update(i, p).drop_last() =~= entries.drop_last());
        assert(map_of(entries.update(i, p)) =~= map_of(entries).insert(k, p.1@));
    } else {
        assert(entries.update(i, p).drop_last() =~= entries.drop_last().update(i, p));
        lemma_map_of_update(entries.drop_last(), i, p);
        assert(entries.last().0@ != k);
        assert(map_of(entries.update(i, p)) =~= map_of(entries).insert(k, p.1@));
    }
}

impl<V: View> View for StrMap<V> {
    type V = Map<Seq<char>, V::V>;

    closed spec fn view(&self) -> Map<Seq<char>, V::V> {
        map_of(self.entries@)
    }
}

impl<V: View> StrMap<V> {
    /// The representation invariant: no two pairs share a key.
    pub closed spec fn wf(&self) -> bool {
        distinct_keys(self.entries@)
    }

    /// An empty mapping.
    pub fn new() -> (r: Self)
        ensures
            r.wf(),
            r@ == Map::<Seq<char>, V::V>::empty(),
    {
        StrMap { entries: Vec::new() }
    }

    /// The position of the pair carrying `key`, if any.
    fn find_idx(&self, key: &String) -> (r: Option<usize>)
        ensures
            match r {
                Some(i) => i < self.entries@.len() && self.entries@[i as int].0@ == key@,
                None => forall|j: int|
                    0 <= j < self.entries@.len() ==> (#[trigger] self.entries@[j].0@) != key@,
            },
    {
        let mut i: usize = 0;
        while i < self.entries.len()
            invariant
                i <= self.entries@.len(),
                forall|j: int| 0 <= j < i ==> (#[trigger] self.entries@[j].0@) != key@,
            decreases self.entries@.len() - i,
        {
            if self.entries[i].0 == *key {
                return Some(i);
            }
            i += 1;
        }
        None
    }

    /// Looks the value for `key` up; `None` exactly when `key` is absent.
    pub fn get<'a>(&'a self, key: &String) -> (r: Option<&'a V>)
        requires
            self.wf(),
        ensures
            match r {
                Some(v) => self@.contains_key(key@) && v@ == self@[key@],
                None => !self@.contains_key(key@),
            },
    {
        match self.find_idx(key) {
            Some(i) => {
                proof {
                    lemma_map_of_found(self.entries@, i as int, key@);
                }
                Some(&self.entries[i].1)
            },
            None => {
                proof {
                    lemma_map_of_absent(self.entries@, key@);
                }
                None
            },
        }
    }

    /// Binds `key` to `value`, overwriting any earlier binding of `key`.
    pub fn insert(&mut self, key: String, value: V)
        requires
            old(self).wf(),
        ensures
            final(self).wf(),
            final(self)@ == old(self)@.insert(key@, value@),
    {
        let ghost k = key@;
        let ghost v = value@;
        match self.find_idx(&key) {
            Some(i) => {
                let ghost before = self.entries@;
                self.entries[i] = (key, value);
                proof {
                    lemma_map_of_update(before, i as int, self.entries@[i as int]);
                    assert forall|a: int, b: int|
                        0 <= a < self.entries@.len() && 0 <= b < self.entries@.len()
                            && #[trigger] self.entries@[a].0@ == #[trigger] self.entries@[b].0@
                        implies a == b by {
                        assert(before[a].0@ == self.entries@[a].0@);
                        assert(before[b].0@ == self.entries@[b].0@);
                    }
                }
            },
            None => {
                let ghost before = self.entries@;
                self.entries.push((key, value));
                proof {
                    assert(self.entries@.drop_last() =~= before);
                    assert(self@ =~= old(self)@.insert(k, v));
                }
            },
        }
    }

    /// The pairs the mapping holds, one per key.
    pub fn pairs(&self) -> (r: &Vec<(String, V)>)
        requires
            self.wf(),
        ensures
            forall|i: int|
                0 <= i < r@.len() ==> self@.contains_key(#[trigger] r@[i].0@) && self@[r@[i].0@]
                    == r@[i].1@,
            forall|k: Seq<char>|
                self@.contains_key(k) ==> exists|i: int| 0 <= i < r@.len() && (#[trigger] r@[i].0@)
                    == k,
            forall|i: int, j: int|
                0 <= i < r@.len() && 0 <= j < r@.len() && #[trigger] r@[i].0@ == #[trigger] r@[j].0@
                    ==> i == j,
    {
        proof {
            assert forall|i: int|
                0 <= i < self.entries@.len() implies self@.contains_key(
                #[trigger] self.entries@[i].0@,
            ) && self@[self.entries@[i].0@] == self.entries@[i].1@ by {
                assert forall|j: int|
                    i < j < self.entries@.len() implies (#[trigger] self.entries@[j].0@)
                    != self.entries@[i].0@ by {}
                lemma_map_of_found(self.entries@, i, self.entries@[i].0@);
            }
            assert forall|k: Seq<char>| self@.contains_key(k) implies exists|i: int|
                0 <= i < self.entries@.len() && (#[trigger] self.entries@[i].0@) == k by {
                if forall|j: int|
                    0 <= j < self.entries@.len() ==> (#[trigger] self.entries@[j].0@) != k {
                    lemma_map_of_absent(self.entries@, k);
                }
            }
        }
        &self.entries
    }
}

} // verus!
