//! A small map keyed by strings, kept as a vector of entries whose keys
//! are pairwise distinct.

use vstd::prelude::*;
use vstd::string::*;

verus! {

/// A map from strings to values. Its model is a `Map` from the keys' text
/// to the stored values.
#[derive(Debug)]
pub struct StrMap<V> {
    entries: Vec<(String, V)>,
}

impl<V> View for StrMap<V> {
    type V = Map<Seq<char>, V>;

    closed spec fn view(&self) -> Map<Seq<char>, V> {
        Map::new(|k: Seq<char>| self.holds(k), |k: Seq<char>| self.entries@[self.position(k)].1)
    }
}

impl<V> StrMap<V> {
    #[verifier::type_invariant]
    closed spec fn keys_distinct(self) -> bool {
        forall|i: int, j: int|
            0 <= i < self.entries@.len() && 0 <= j < self.entries@.len() && i != j
                ==> #[trigger] self.entries@[i].0@ != #[trigger] self.entries@[j].0@
    }

    closed spec fn holds(self, k: Seq<char>) -> bool {
        exists|i: int| 0 <= i < self.entries@.len() && #[trigger] self.entries@[i].0@ == k
    }

    closed spec fn position(self, k: Seq<char>) -> int {
        choose|i: int| 0 <= i < self.entries@.len() && #[trigger] self.entries@[i].0@ == k
    }

    proof fn lemma_position(self, i: int)
        requires
            self.keys_distinct(),
            0 <= i < self.entries@.len(),
        ensures
            self.holds(self.entries@[i].0@),
            self.position(self.entries@[i].0@) == i,
            self@.contains_key(self.entries@[i].0@),
            self@[self.entries@[i].0@] == self.entries@[i].1,
    {
        let k = self.entries@[i].0@;
        assert(self.holds(k));
        let j = self.position(k);
        assert(self.entries@[j].0@ == k);
    }

    /// An empty map.
    pub fn new() -> (r: Self)
        ensures
            r@ == Map::<Seq<char>, V>::empty(),
    {
        let r = StrMap { entries: Vec::new() };
        assert(r@ =~= Map::<Seq<char>, V>::empty());
        r
    }

    fn find(&self, k: &String) -> (r: Option<usize>)
        ensures
            match r {
                Some(i) => i < self.entries@.len() && self.entries@[i as int].0@ == k@,
                None => !self@.contains_key(k@),
            },
    {
        let mut i: usize = 0;
        while i < self.entries.len()
            invariant
                i <= self.entries@.len(),
                forall|j: int| 0 <= j < i ==> #[trigger] self.entries@[j].0@ != k@,
            decreases self.entries@.len() - i,
        {
            if self.entries[i].0 == *k {
                return Some(i);
            }
            i = i + 1;
        }
        None
    }

    /// Whether `k` is a key of the map.
    pub fn contains_key(&self, k: &str) -> (r: bool)
        ensures
            r == self@.contains_key(k@),
    {
        let key = String::from_str(k);
        self.find(&key).is_some()
    }

    /// The value stored under `k`, if any.
    pub fn get(&self, k: &str) -> (r: Option<&V>)
        ensures
            r == (if self@.contains_key(k@) { Some(&self@[k@]) } else { None }),
    {
        proof { use_type_invariant(self); }
        let key = String::from_str(k);
        match self.find(&key) {
            Some(i) => {
                proof { self.lemma_position(i as int); }
                Some(&self.entries[i].1)
            },
            None => None,
        }
    }

    /// Stores `v` under `k`, replacing any earlier value of `k`.
    pub fn insert(&mut self, k: String, v: V)
        ensures
            final(self)@ == old(self)@.insert(k@, v),
    {
        proof { use_type_invariant(&*self); }
        let ghost old_map = *self;
        let ghost key = k@;
        let found = self.find(&k);
        let mut entries: Vec<(String, V)> = Vec::new();
        std::mem::swap(&mut entries, &mut self.entries);
        match found {
            Some(i) => {
                proof { old_map.lemma_position(i as int); }
                entries.set(i, (k, v));
            },
            None => {
                entries.push((k, v));
            },
        }
        self.entries = entries;
        proof {
            use_type_invariant(&*self);
            let new_map = *self;
            assert forall|q: Seq<char>| #[trigger] new_map.holds(q) == (old_map.holds(q) || q == key) by {
                if new_map.holds(q) {
                    let j = new_map.position(q);
                    if j < old_map.entries@.len() && new_map.entries@[j].0@ != key {
                        assert(old_map.entries@[j].0@ == q);
                    }
                }
                if old_map.holds(q) {
                    let j = old_map.position(q);
                    assert(new_map.entries@[j].0@ == q);
                }
                if q == key {
                    assert(new_map.holds(q)) by {
                        if old_map.holds(q) {
                            let j = old_map.position(q);
                            assert(new_map.entries@[j].0@ == q);
                        } else {
                            assert(new_map.entries@[new_map.entries@.len() - 1].0@ == q);
                        }
                    }
                }
            }
            assert forall|q: Seq<char>| #[trigger] new_map.holds(q) implies
                new_map@[q] == old_map@.insert(key, v)[q] by {
                let j = new_map.position(q);
                new_map.lemma_position(j);
                if q != key {
                    assert(old_map.entries@[j] == new_map.entries@[j]);
                    old_map.lemma_position(j);
                }
            }
            assert(new_map@ =~= old_map@.insert(key, v));
        }
    }
}


impl<V> StrMap<V> {
    /// The stored entries, each key once.
    pub fn pairs(&self) -> (r: &Vec<(String, V)>)
        ensures
            forall|i: int| 0 <= i < r@.len() ==> #[trigger] self@.contains_key(r@[i].0@)
                && self@[r@[i].0@] == r@[i].1,
            forall|k: Seq<char>| #[trigger] self@.contains_key(k)
                ==> exists|i: int| 0 <= i < r@.len() && #[trigger] r@[i].0@ == k,
            forall|i: int, j: int| 0 <= i < r@.len() && 0 <= j < r@.len() && i != j
                ==> #[trigger] r@[i].0@ != #[trigger] r@[j].0@,
    {
        proof {
            use_type_invariant(self);
            assert forall|i: int| 0 <= i < self.entries@.len() implies
                #[trigger] self@.contains_key(self.entries@[i].0@)
                && self@[self.entries@[i].0@] == self.entries@[i].1 by {
                self.lemma_position(i);
            }
        }
        &self.entries
    }
}

impl StrMap<String> {
    /// The model of a map of texts: each key's text to its value's text.
    pub open spec fn text_view(self) -> Map<Seq<char>, Seq<char>> {
        self@.map_values(|v: String| v@)
    }

    /// Whether both maps hold the same keys with the same texts.
    pub fn same_text(&self, other: &Self) -> (r: bool)
        ensures
            r == (self.text_view() == other.text_view()),
    {
        proof {
            use_type_invariant(self);
            use_type_invariant(other);
        }
        let mut i: usize = 0;
        while i < self.entries.len()
            invariant
                self.keys_distinct(),
                other.keys_distinct(),
                i <= self.entries@.len(),
                forall|j: int| 0 <= j < i ==> #[trigger] other@.contains_key(self.entries@[j].0@)
                    && other@[self.entries@[j].0@]@ == self.entries@[j].1@,
            decreases self.entries@.len() - i,
        {
            proof { self.lemma_position(i as int); }
            match other.find(&self.entries[i].0) {
                Some(j) => {
                    proof { other.lemma_position(j as int); }
                    let same = other.entries[j].1 == self.entries[i].1;
                    if !same {
                        proof {
                            let k = self.entries@[i as int].0@;
                            assert(self.text_view()[k] != other.text_view()[k]);
                        }
                        return false;
                    }
                    proof {
                        let k = self.entries@[i as int].0@;
                        assert(other@.contains_key(k) && other@[k]@ == self.entries@[i as int].1@);
                    }
                },
                None => {
                    proof {
                        let k = self.entries@[i as int].0@;
                        assert(self.text_view().contains_key(k));
                        assert(!other.text_view().contains_key(k));
                    }
                    return false;
                },
            }
            proof {
                assert forall|n: int| 0 <= n < i + 1 implies #[trigger] other@.contains_key(self.entries@[n].0@)
                    && other@[self.entries@[n].0@]@ == self.entries@[n].1@ by {
                    if n == i {
                        let k = self.entries@[i as int].0@;
                        assert(other@.contains_key(k));
                    }
                }
            }
            i = i + 1;
        }
        let mut j: usize = 0;
        while j < other.entries.len()
            invariant
                self.keys_distinct(),
                other.keys_distinct(),
                j <= other.entries@.len(),
                forall|n: int| 0 <= n < j ==> #[trigger] self@.contains_key(other.entries@[n].0@),
            decreases other.entries@.len() - j,
        {
            proof { other.lemma_position(j as int); }
            if self.find(&other.entries[j].0).is_none() {
                proof {
                    let k = other.entries@[j as int].0@;
                    assert(other.text_view().contains_key(k));
                    assert(!self.text_view().contains_key(k));
                }
                return false;
            }
            j = j + 1;
        }
        proof {
            assert forall|k: Seq<char>| #[trigger] self@.contains_key(k) implies other@.contains_key(k)
                && other@[k]@ == self@[k]@ by {
                let p = self.position(k);
                self.lemma_position(p);
            }
            assert forall|k: Seq<char>| #[trigger] other@.contains_key(k) implies self@.contains_key(k) by {
                let p = other.position(k);
                other.lemma_position(p);
            }
            assert(self.text_view() =~= other.text_view());
        }
        true
    }

    /// A copy of the map.
    pub fn duplicate(&self) -> (r: Self)
        ensures
            r@ == self@,
    {
        proof { use_type_invariant(self); }
        let mut entries: Vec<(String, String)> = Vec::new();
        let mut i: usize = 0;
        while i < self.entries.len()
            invariant
                i <= self.entries@.len(),
                entries@ == self.entries@.subrange(0, i as int),
            decreases self.entries@.len() - i,
        {
            let k = self.entries[i].0.clone();
            let v = self.entries[i].1.clone();
            entries.push((k, v));
            proof {
                assert(entries@ =~= self.entries@.subrange(0, i + 1));
            }
            i = i + 1;
        }
        proof { assert(entries@ =~= self.entries@); }
        StrMap { entries }
    }
}

} // verus!
