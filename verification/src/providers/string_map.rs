//! A map from names to values, kept as a list of distinct names with their
//! values, in insertion order.
use vstd::prelude::*;
use crate::text::str_eq;

verus! {

/// A map from names to values.
pub struct StringMap<V> {
    entries: Vec<(String, V)>,
}

/// The names of a list of entries.
pub open spec fn entry_keys<V>(entries: Seq<(String, V)>) -> Seq<Seq<char>> {
    entries.map_values(|e: (String, V)| e.0@)
}

impl<V> StringMap<V> {
    /// The names, in insertion order.
    pub closed spec fn keys_seq(&self) -> Seq<Seq<char>> {
        entry_keys(self.entries@)
    }

    /// The values, in the order of their names.
    pub closed spec fn values_seq(&self) -> Seq<V> {
        self.entries@.map_values(|e: (String, V)| e.1)
    }

    /// No name occurs twice.
    pub closed spec fn wf(&self) -> bool {
        self.keys_seq().no_duplicates()
    }

    /// The map itself.
    pub open spec fn map(&self) -> Map<Seq<char>, V> {
        Map::new(
            |k: Seq<char>| self.keys_seq().contains(k),
            |k: Seq<char>| self.values_seq()[self.keys_seq().index_of(k)],
        )
    }

    proof fn lemma_index_of(&self, i: int)
        requires
            self.wf(),
            0 <= i < self.keys_seq().len(),
        ensures
            self.keys_seq().index_of(self.keys_seq()[i]) == i,
            self.keys_seq().contains(self.keys_seq()[i]),
    {
        let k = self.keys_seq()[i];
        assert(self.keys_seq()[i] == k);
        let j = self.keys_seq().index_of(k);
        assert(0 <= j < self.keys_seq().len() && self.keys_seq()[j] == k);
    }

    /// An empty map.
    pub fn new() -> (r: Self)
        ensures
            r.wf(),
            r.keys_seq().len() == 0,
            r.map() == Map::<Seq<char>, V>::empty(),
    {
        let r = StringMap { entries: Vec::new() };
        assert(r.map() =~= Map::<Seq<char>, V>::empty());
        r
    }

    /// The number of names.
    pub fn len(&self) -> (r: usize)
        ensures
            r == self.keys_seq().len(),
            self.keys_seq().len() == self.values_seq().len(),
    {
        self.entries.len()
    }

    /// The position of `k`, if present.
    fn find(&self, k: &str) -> (r: Option<usize>)
        requires
            self.wf(),
        ensures
            match r {
                Some(i) => i < self.keys_seq().len() && self.keys_seq()[i as int] == k@ && self.keys_seq().index_of(k@) == i,
                None => !self.keys_seq().contains(k@),
            },
    {
        let mut i: usize = 0;
        while i < self.entries.len()
            invariant
                i <= self.entries@.len(),
                self.wf(),
                forall|j: int| 0 <= j < i ==> self.keys_seq()[j] != k@,
            decreases self.entries.len() - i,
        {
            if str_eq(self.entries[i].0.as_str(), k) {
                proof {
                    self.lemma_index_of(i as int);
                }
                return Some(i);
            }
            i = i + 1;
        }
        None
    }

    /// The value of `k`, if present.
    pub fn get(&self, k: &str) -> (r: Option<&V>)
        requires
            self.wf(),
        ensures
            match r {
                Some(v) => self.map().contains_key(k@) && *v == self.map()[k@],
                None => !self.map().contains_key(k@),
            },
    {
        match self.find(k) {
            Some(i) => Some(&self.entries[i].1),
            None => None,
        }
    }

    /// Whether `k` is present.
    pub fn contains_key(&self, k: &str) -> (r: bool)
        requires
            self.wf(),
        ensures
            r == self.map().contains_key(k@),
    {
        self.find(k).is_some()
    }

    /// Sets the value of `k`; a new name goes last.
    pub fn insert(&mut self, k: String, v: V)
        requires
            old(self).wf(),
        ensures
            final(self).wf(),
            final(self).map() == old(self).map().insert(k@, v),
            old(self).keys_seq().contains(k@) ==> final(self).keys_seq() == old(self).keys_seq(),
            !old(self).keys_seq().contains(k@) ==> final(self).keys_seq() == old(self).keys_seq().push(k@),
    {
        let ghost kv = k@;
        match self.find(k.as_str()) {
            Some(i) => {
                let ghost old_keys = self.keys_seq();
                self.entries.set(i, (k, v));
                proof {
                    assert(self.keys_seq() =~= old_keys);
                    assert forall|j: int| 0 <= j < self.keys_seq().len() && j != i implies self.values_seq()[j] == old(self).values_seq()[j] by {}
                    assert forall|key: Seq<char>| #[trigger] self.map().contains_key(key) implies self.map()[key] == old(self).map().insert(kv, v)[key] by {
                        let j = self.keys_seq().index_of(key);
                        assert(0 <= j < self.keys_seq().len() && self.keys_seq()[j] == key);
                        if key == kv {
                            self.lemma_index_of(i as int);
                        }
                    }
                    assert(self.map() =~= old(self).map().insert(kv, v));
                }
            },
            None => {
                let ghost old_keys = self.keys_seq();
                self.entries.push((k, v));
                proof {
                    assert(self.keys_seq() =~= old_keys.push(kv));
                    assert(self.wf()) by {
                        assert forall|a: int, b: int| 0 <= a < b < self.keys_seq().len() implies self.keys_seq()[a] != self.keys_seq()[b] by {
                            if b == old_keys.len() {
                                assert(old_keys[a] == self.keys_seq()[a]);
                            }
                        }
                    }
                    assert forall|key: Seq<char>| #[trigger] self.map().contains_key(key) implies self.map()[key] == old(self).map().insert(kv, v)[key] by {
                        let j = self.keys_seq().index_of(key);
                        assert(0 <= j < self.keys_seq().len() && self.keys_seq()[j] == key);
                        if key == kv {
                            self.lemma_index_of(old_keys.len() as int);
                        } else {
                            assert(j < old_keys.len());
                            assert(old_keys[j] == key);
                            old(self).lemma_index_of(j);
                        }
                    }
                    assert forall|key: Seq<char>| #[trigger] old(self).map().insert(kv, v).contains_key(key) implies self.map().contains_key(key) by {
                        if key != kv {
                            let j = old_keys.index_of(key);
                            assert(self.keys_seq()[j] == key);
                        } else {
                            assert(self.keys_seq()[old_keys.len() as int] == key);
                        }
                    }
                    assert(self.map() =~= old(self).map().insert(kv, v));
                }
            },
        }
    }

    /// Removes `k`, returning its value; the other names keep their order.
    pub fn remove(&mut self, k: &str) -> (r: Option<V>)
        requires
            old(self).wf(),
        ensures
            final(self).wf(),
            final(self).map() == old(self).map().remove(k@),
            match r {
                Some(v) => old(self).map().contains_key(k@) && v == old(self).map()[k@],
                None => !old(self).map().contains_key(k@),
            },
            old(self).keys_seq().contains(k@) ==> final(self).keys_seq() == old(self).keys_seq().remove(
                old(self).keys_seq().index_of(k@),
            ),
            !old(self).keys_seq().contains(k@) ==> final(self).keys_seq() == old(self).keys_seq(),
    {
        match self.find(k) {
            Some(i) => {
                let ghost old_keys = self.keys_seq();
                let ghost old_vals = self.values_seq();
                let (_, v) = self.entries.remove(i);
                proof {
                    assert(self.keys_seq() =~= old_keys.remove(i as int));
                    assert(self.values_seq() =~= old_vals.remove(i as int));
                    assert(self.wf()) by {
                        assert forall|a: int, b: int| 0 <= a < b < self.keys_seq().len() implies self.keys_seq()[a] != self.keys_seq()[b] by {
                            let a0 = if a < i { a } else { a + 1 };
                            let b0 = if b < i { b } else { b + 1 };
                            assert(self.keys_seq()[a] == old_keys[a0]);
                            assert(self.keys_seq()[b] == old_keys[b0]);
                        }
                    }
                    assert forall|key: Seq<char>| #[trigger] self.map().contains_key(key) implies self.map()[key] == old(self).map().remove(k@)[key] && key != k@ && old(self).map().contains_key(key) by {
                        let j = self.keys_seq().index_of(key);
                        assert(0 <= j < self.keys_seq().len() && self.keys_seq()[j] == key);
                        let j0 = if j < i { j } else { j + 1 };
                        assert(old_keys[j0] == key);
                        old(self).lemma_index_of(j0);
                        assert(j0 != i);
                    }
                    assert forall|key: Seq<char>| #[trigger] old(self).map().remove(k@).contains_key(key) implies self.map().contains_key(key) by {
                        let j0 = old_keys.index_of(key);
                        assert(0 <= j0 < old_keys.len() && old_keys[j0] == key);
                        assert(j0 != i);
                        let j = if j0 < i { j0 } else { j0 - 1 };
                        assert(self.keys_seq()[j] == key);
                    }
                    assert(self.map() =~= old(self).map().remove(k@));
                }
                Some(v)
            },
            None => {
                proof {
                    assert(self.map().remove(k@) =~= self.map());
                }
                None
            },
        }
    }

    /// The names, in order.
    pub fn keys(&self) -> (r: Vec<String>)
        ensures
            r.deep_view() == self.keys_seq(),
    {
        let mut out: Vec<String> = Vec::new();
        let mut i: usize = 0;
        while i < self.entries.len()
            invariant
                i <= self.entries@.len(),
                out.deep_view() == self.keys_seq().take(i as int),
            decreases self.entries.len() - i,
        {
            let ghost o0 = out.deep_view();
            let key = self.entries[i].0.clone();
            out.push(key);
            assert(self.keys_seq()[i as int] == self.entries@[i as int].0@);
            assert(out.deep_view() =~= o0.push(key@));
            assert(self.keys_seq().take(i + 1) =~= self.keys_seq().take(i as int).push(self.keys_seq()[i as int]));
            i = i + 1;
        }
        assert(self.keys_seq().take(self.keys_seq().len() as int) =~= self.keys_seq());
        out
    }

    /// The names are distinct.
    pub proof fn lemma_keys_unique(&self)
        requires
            self.wf(),
        ensures
            self.keys_seq().no_duplicates(),
    {
    }

    /// The names are the map's keys, each once, and the value at each
    /// position is the map's value of the name there.
    pub proof fn lemma_listing(&self)
        requires
            self.wf(),
        ensures
            self.keys_seq().no_duplicates(),
            self.keys_seq().len() == self.values_seq().len(),
            forall|k: Seq<char>| #[trigger] self.map().contains_key(k) <==> self.keys_seq().contains(k),
            forall|i: int| 0 <= i < self.keys_seq().len() ==> #[trigger] self.map()[self.keys_seq()[i]] == self.values_seq()[i],
    {
        assert forall|i: int| 0 <= i < self.keys_seq().len() implies #[trigger] self.map()[self.keys_seq()[i]]
            == self.values_seq()[i] by {
            self.lemma_index_of(i);
        }
    }

    /// There is one value for each name.
    pub proof fn lemma_lengths(&self)
        ensures
            self.keys_seq().len() == self.values_seq().len(),
    {
    }

    /// The name at position `i`.
    pub fn key_at(&self, i: usize) -> (r: &String)
        requires
            i < self.keys_seq().len(),
        ensures
            r@ == self.keys_seq()[i as int],
    {
        &self.entries[i].0
    }

    /// The value at position `i`.
    pub fn value_at(&self, i: usize) -> (r: &V)
        requires
            i < self.values_seq().len(),
        ensures
            *r == self.values_seq()[i as int],
            self.keys_seq().len() == self.values_seq().len(),
    {
        &self.entries[i].1
    }
}

} // verus!
