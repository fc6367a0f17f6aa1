//! A map keyed by names, kept in insertion order.
//!
//! The element registry and the attributes of a headless node are keyed by
//! strings.  `NameMap` keeps its entries in a vector with no two entries of the
//! same name; its view is the `Map` from each name to its value.
use vstd::prelude::*;
use crate::strings::{str_eq, strings_view};

verus! {

broadcast use vstd::seq_lib::group_seq_properties;

/// Entries `(name, value)`, at most one per name, in the order in which the
/// names were first inserted.
pub struct NameMap<V> {
    entries: Vec<(String, V)>,
}

impl<V> NameMap<V> {
    /// The names, in insertion order.
    pub closed spec fn keys_seq(&self) -> Seq<Seq<char>> {
        self.entries@.map_values(|e: (String, V)| e.0@)
    }

    /// The values, in the order of `keys_seq`.
    pub closed spec fn values_seq(&self) -> Seq<V> {
        self.entries@.map_values(|e: (String, V)| e.1)
    }

    #[verifier::type_invariant]
    closed spec fn names_unique(&self) -> bool {
        self.keys_seq().no_duplicates()
    }

    /// The map from each name to its value.
    pub closed spec fn view(&self) -> Map<Seq<char>, V> {
        Map::new(
            |k: Seq<char>| self.keys_seq().contains(k),
            |k: Seq<char>| self.values_seq()[self.keys_seq().index_of(k)],
        )
    }

    proof fn lemma_index(&self, i: int)
        requires
            self.keys_seq().no_duplicates(),
            0 <= i < self.entries@.len(),
        ensures
            self.view().contains_key(self.keys_seq()[i]),
            self.view()[self.keys_seq()[i]] == self.entries@[i].1,
            self.keys_seq().index_of(self.keys_seq()[i]) == i,
    {
        let k = self.keys_seq()[i];
        assert(self.keys_seq().contains(k));
        let j = self.keys_seq().index_of(k);
        assert(self.keys_seq()[j] == k);
    }

    proof fn lemma_shape(&self)
        requires
            self.keys_seq().no_duplicates(),
        ensures
            self.keys_seq().no_duplicates(),
            self.view().dom() == self.keys_seq().to_set(),
            self.view().dom().finite(),
            self.view().len() == self.keys_seq().len(),
            self.keys_seq().len() == self.values_seq().len(),
            forall|i: int|
                0 <= i < self.keys_seq().len() ==> #[trigger] self.view()[self.keys_seq()[i]]
                    == self.values_seq()[i],
    {
        assert(self.view().dom() =~= self.keys_seq().to_set());
        self.keys_seq().unique_seq_to_set();
        assert forall|i: int| 0 <= i < self.keys_seq().len() implies #[trigger] self.view()[self.keys_seq()[i]]
            == self.values_seq()[i] by {
            self.lemma_index(i);
        }
    }

    /// An empty map.
    pub fn new() -> (m: Self)
        ensures
            m@ == Map::<Seq<char>, V>::empty(),
            m.keys_seq() == Seq::<Seq<char>>::empty(),
    {
        let m = NameMap { entries: Vec::new() };
        assert(m@ =~= Map::<Seq<char>, V>::empty());
        assert(m.keys_seq() =~= Seq::<Seq<char>>::empty());
        m
    }

    /// The position of `name` among the entries, if it is there.
    fn find(&self, name: &str) -> (r: Option<usize>)
        ensures
            match r {
                Some(i) => i < self.entries@.len() && self.keys_seq()[i as int] == name@,
                None => !self.keys_seq().contains(name@),
            },
    {
        let mut i: usize = 0;
        while i < self.entries.len()
            invariant
                i <= self.entries@.len(),
                forall|j: int| 0 <= j < i ==> self.keys_seq()[j] != name@,
            decreases self.entries@.len() - i,
        {
            if str_eq(self.entries[i].0.as_str(), name) {
                return Some(i);
            }
            i = i + 1;
        }
        None
    }

    /// Whether `name` has an entry.
    pub fn contains(&self, name: &str) -> (r: bool)
        ensures
            r == self@.contains_key(name@),
    {
        self.find(name).is_some()
    }

    /// The value of `name`, if it has one.
    pub fn get(&self, name: &str) -> (r: Option<&V>)
        ensures
            match r {
                Some(v) => self@.contains_key(name@) && *v == self@[name@],
                None => !self@.contains_key(name@),
            },
    {
        proof {
            use_type_invariant(self);
        }
        match self.find(name) {
            Some(i) => {
                proof {
                    self.lemma_index(i as int);
                }
                Some(&self.entries[i].1)
            },
            None => None,
        }
    }

    /// Sets the value of `name`, replacing an earlier value in place or
    /// appending a new entry; returns whether an entry was replaced.
    pub fn insert(&mut self, name: String, value: V) -> (replaced: bool)
        ensures
            final(self)@ == old(self)@.insert(name@, value),
            replaced == old(self)@.contains_key(name@),
            replaced ==> final(self).keys_seq() == old(self).keys_seq(),
            !replaced ==> final(self).keys_seq() == old(self).keys_seq().push(name@),
    {
        proof {
            use_type_invariant(&*self);
        }
        let ghost old_keys = self.keys_seq();
        let ghost old_view = self@;
        match self.find(name.as_str()) {
            Some(i) => {
                let ghost k = name@;
                let mut entries = Vec::new();
                std::mem::swap(&mut entries, &mut self.entries);
                entries.set(i, (name, value));
                proof {
                    let after = entries@;
                    assert(after.map_values(|e: (String, V)| e.0@) =~= old_keys);
                }
                self.entries = entries;
                proof {
                    assert(self.keys_seq() =~= old_keys);
                    assert forall|key: Seq<char>| #[trigger]
                        self@.contains_key(key) == old_view.insert(k, value).contains_key(key) by {}
                    assert forall|key: Seq<char>| self@.contains_key(key) implies #[trigger] self@[key]
                        == old_view.insert(k, value)[key] by {
                        let j = old_keys.index_of(key);
                        assert(old_keys[j] == key);
                        if key == k {
                            assert(old_keys[i as int] == k);
                        } else {
                            assert(j != i);
                        }
                    }
                    assert(self@ =~= old_view.insert(k, value));
                }
                true
            },
            None => {
                let ghost k = name@;
                let mut entries = Vec::new();
                std::mem::swap(&mut entries, &mut self.entries);
                entries.push((name, value));
                proof {
                    assert(entries@.map_values(|e: (String, V)| e.0@) =~= old_keys.push(k));
                }
                self.entries = entries;
                proof {
                    let n = old_keys.len() as int;
                    assert(self.keys_seq() =~= old_keys.push(k));
                    assert forall|key: Seq<char>| #[trigger]
                        self@.contains_key(key) == old_view.insert(k, value).contains_key(key) by {
                        if key == k {
                            assert(self.keys_seq()[n] == k);
                        } else if old_keys.contains(key) {
                            let j = old_keys.index_of(key);
                            assert(self.keys_seq()[j] == key);
                        }
                    }
                    assert forall|key: Seq<char>| self@.contains_key(key) implies #[trigger] self@[key]
                        == old_view.insert(k, value)[key] by {
                        let j = self.keys_seq().index_of(key);
                        assert(self.keys_seq()[j] == key);
                        if key == k {
                            assert(self.keys_seq()[n] == k);
                        } else {
                            assert(j < n);
                            assert(old_keys[j] == key);
                            let j0 = old_keys.index_of(key);
                            assert(old_keys[j0] == key);
                        }
                    }
                    assert(self@ =~= old_view.insert(k, value));
                }
                false
            },
        }
    }

    /// The number of entries.
    pub fn len(&self) -> (n: usize)
        ensures
            n == self@.len(),
            n == self.keys_seq().len(),
            self@.dom().finite(),
    {
        proof {
            use_type_invariant(self);
            self.lemma_shape();
        }
        self.entries.len()
    }

    /// The name and value of the entry at `i`, in insertion order.
    pub fn entry(&self, i: usize) -> (r: (&String, &V))
        requires
            i < self.keys_seq().len(),
        ensures
            r.0@ == self.keys_seq()[i as int],
            self@.contains_key(r.0@),
            *r.1 == self@[r.0@],
    {
        proof {
            use_type_invariant(self);
            self.lemma_index(i as int);
        }
        (&self.entries[i].0, &self.entries[i].1)
    }

    /// All names, in insertion order; each name of the map occurs exactly once.
    pub fn keys(&self) -> (r: Vec<String>)
        ensures
            strings_view(r@) == self.keys_seq(),
            strings_view(r@).no_duplicates(),
            strings_view(r@).to_set() == self@.dom(),
            r@.len() == self@.len(),
    {
        proof {
            use_type_invariant(self);
            self.lemma_shape();
        }
        let mut r: Vec<String> = Vec::new();
        let mut i: usize = 0;
        while i < self.entries.len()
            invariant
                i <= self.entries@.len(),
                strings_view(r@) == self.keys_seq().take(i as int),
            decreases self.entries@.len() - i,
        {
            let key = self.entries[i].0.clone();
            assert(key@ == self.keys_seq()[i as int]);
            let ghost old_r = r@;
            assert(self.keys_seq().len() == self.entries@.len());
            assert(strings_view(old_r).len() == old_r.len());
            assert(old_r.len() == i);
            r.push(key);
            assert(r@ == old_r.push(key));
            assert forall|j: int| 0 <= j < i implies strings_view(r@)[j] == self.keys_seq()[j] by {
                assert(r@[j] == old_r[j]);
                assert(strings_view(old_r)[j] == self.keys_seq().take(i as int)[j]);
            }
            i = i + 1;
            assert(strings_view(r@) =~= self.keys_seq().take(i as int));
        }
        assert(self.keys_seq().take(i as int) =~= self.keys_seq());
        r
    }
}

} // verus!
