//! Verified key/value stores backing the marketplace's records.
//!
//! On-chain record sets are small, so each store is an association vector
//! with unique keys, abstracted as a `Map` in contracts.  `VecMap` covers
//! keys with structural equality (addresses and composite token keys);
//! `StringMap` covers the template registry, keyed by name.

use vstd::prelude::*;

verus! {

/// Keys of the marketplace's association maps.  `key_eq` must decide exactly
/// the equality that contracts use on key values.
pub trait MapKey: Sized + Copy {
    /// Decides equality of two keys.
    fn key_eq(&self, other: &Self) -> (r: bool)
        ensures
            r == (self == other),
    ;
}

impl MapKey for u64 {
    fn key_eq(&self, other: &Self) -> (r: bool) {
        *self == *other
    }
}

impl MapKey for crate::types::TokenKey {
    fn key_eq(&self, other: &Self) -> (r: bool) {
        *self == *other
    }
}

impl MapKey for crate::types::OfferKey {
    fn key_eq(&self, other: &Self) -> (r: bool) {
        *self == *other
    }
}

/// A finite map held as a vector of entries with pairwise distinct keys.
pub struct VecMap<K, V> {
    entries: Vec<(K, V)>,
}

impl<K: MapKey, V> VecMap<K, V> {
    /// The map denoted by an entry sequence: later entries win, though with
    /// unique keys the order never matters.
    pub closed spec fn map_of(s: Seq<(K, V)>) -> Map<K, V>
        decreases s.len(),
    {
        if s.len() == 0 {
            Map::empty()
        } else {
            Self::map_of(s.drop_last()).insert(s.last().0, s.last().1)
        }
    }

    pub closed spec fn unique_keys(s: Seq<(K, V)>) -> bool {
        forall|i: int, j: int| 0 <= i < j < s.len() ==> s[i].0 != s[j].0
    }

    /// Well-formedness: no key occurs twice.
    pub closed spec fn wf(self) -> bool {
        Self::unique_keys(self.entries@)
    }

    proof fn lemma_contains(s: Seq<(K, V)>, k: K)
        ensures
            Self::map_of(s).contains_key(k) <==> exists|i: int|
                0 <= i < s.len() && (#[trigger] s[i]).0 == k,
        decreases s.len(),
    {
        if s.len() > 0 {
            let prefix = s.drop_last();
            Self::lemma_contains(prefix, k);
            if s.last().0 == k {
                assert(s[s.len() - 1].0 == k);
            } else if Self::map_of(s).contains_key(k) {
                let i = choose|i: int| 0 <= i < prefix.len() && (#[trigger] prefix[i]).0 == k;
                assert(s[i].0 == k);
            } else {
                assert forall|i: int| 0 <= i < s.len() implies (#[trigger] s[i]).0 != k by {
                    if i < s.len() - 1 {
                        assert(prefix[i] == s[i]);
                    }
                }
            }
        }
    }

    proof fn lemma_at_index(s: Seq<(K, V)>, i: int)
        requires
            Self::unique_keys(s),
            0 <= i < s.len(),
        ensures
            Self::map_of(s).contains_key(s[i].0),
            Self::map_of(s)[s[i].0] == s[i].1,
        decreases s.len(),
    {
        let prefix = s.drop_last();
        if i < s.len() - 1 {
            assert(Self::unique_keys(prefix)) by {
                assert forall|a: int, b: int|
                    0 <= a < b < prefix.len() implies (#[trigger] prefix[a]).0 != (
                #[trigger] prefix[b]).0 by {
                    assert(prefix[a] == s[a] && prefix[b] == s[b]);
                }
            }
            Self::lemma_at_index(prefix, i);
            assert(prefix[i] == s[i]);
            assert(s.last().0 != s[i].0);
        }
    }

    proof fn lemma_push(s: Seq<(K, V)>, p: (K, V))
        ensures
            Self::map_of(s.push(p)) == Self::map_of(s).insert(p.0, p.1),
    {
        assert(s.push(p).drop_last() =~= s);
        assert(s.push(p).last() == p);
    }

    proof fn lemma_remove_at(s: Seq<(K, V)>, i: int)
        requires
            Self::unique_keys(s),
            0 <= i < s.len(),
        ensures
            Self::unique_keys(s.remove(i)),
            Self::map_of(s.remove(i)) == Self::map_of(s).remove(s[i].0),
    {
        let t = s.remove(i);
        let k0 = s[i].0;
        assert forall|a: int, b: int|
            0 <= a < b < t.len() implies (#[trigger] t[a]).0 != (#[trigger] t[b]).0 by {
            let sa: int = if a < i { a } else { a + 1 };
            let sb: int = if b < i { b } else { b + 1 };
            assert(t[a] == s[sa] && t[b] == s[sb]);
        }
        assert(Self::map_of(t) =~= Self::map_of(s).remove(k0)) by {
            Self::lemma_contains(s, k0);
            assert forall|k: K| #[trigger]
                Self::map_of(t).contains_key(k) implies Self::map_of(s).remove(k0).contains_key(
                k) && Self::map_of(t)[k] == Self::map_of(s).remove(k0)[k] by {
                Self::lemma_contains(t, k);
                let j = choose|j: int| 0 <= j < t.len() && (#[trigger] t[j]).0 == k;
                let sj: int = if j < i { j } else { j + 1 };
                assert(t[j] == s[sj]);
                Self::lemma_at_index(t, j);
                Self::lemma_at_index(s, sj);
                assert(k != k0);
            }
            assert forall|k: K| #[trigger]
                Self::map_of(s).remove(k0).contains_key(k) implies Self::map_of(
                t).contains_key(k) by {
                Self::lemma_contains(s, k);
                let j = choose|j: int| 0 <= j < s.len() && (#[trigger] s[j]).0 == k;
                assert(j != i);
                let tj: int = if j < i { j } else { j - 1 };
                assert(t[tj] == s[j]);
                Self::lemma_contains(t, k);
            }
        }
    }

    proof fn lemma_dom_len(s: Seq<(K, V)>)
        requires
            Self::unique_keys(s),
        ensures
            Self::map_of(s).dom().finite(),
            Self::map_of(s).dom().len() == s.len(),
        decreases s.len(),
    {
        if s.len() > 0 {
            let prefix = s.drop_last();
            assert(Self::unique_keys(prefix)) by {
                assert forall|a: int, b: int|
                    0 <= a < b < prefix.len() implies (#[trigger] prefix[a]).0 != (
                #[trigger] prefix[b]).0 by {
                    assert(prefix[a] == s[a] && prefix[b] == s[b]);
                }
            }
            Self::lemma_dom_len(prefix);
            Self::lemma_contains(prefix, s.last().0);
            assert(!Self::map_of(prefix).contains_key(s.last().0)) by {
                assert forall|i: int|
                    0 <= i < prefix.len() implies (#[trigger] prefix[i]).0 != s.last().0 by {
                    assert(prefix[i] == s[i]);
                }
            }
            vstd::set::axiom_set_insert_len(Self::map_of(prefix).dom(), s.last().0);
        }
    }

    /// An empty map.
    pub fn new() -> (r: Self)
        ensures
            r.wf(),
            r@ == Map::<K, V>::empty(),
    {
        VecMap { entries: Vec::new() }
    }

    fn index_of(&self, k: &K) -> (r: Option<usize>)
        ensures
            match r {
                Some(i) => i < self.entries@.len() && self.entries@[i as int].0 == *k,
                None => forall|i: int|
                    0 <= i < self.entries@.len() ==> (#[trigger] self.entries@[i]).0 != *k,
            },
    {
        let n = self.entries.len();
        let mut i: usize = 0;
        while i < n
            invariant
                n == self.entries@.len(),
                i <= n,
                forall|j: int| 0 <= j < i ==> (#[trigger] self.entries@[j]).0 != *k,
            decreases n - i,
        {
            if self.entries[i].0.key_eq(k) {
                return Some(i);
            }
            i = i + 1;
        }
        None
    }

    /// Does the map hold the key?
    pub fn contains_key(&self, k: &K) -> (r: bool)
        ensures
            r == self@.contains_key(*k),
    {
        proof {
            Self::lemma_contains(self.entries@, *k);
        }
        match self.index_of(k) {
            Some(_) => true,
            None => false,
        }
    }

    /// The value at a key, if any.
    pub fn get(&self, k: &K) -> (r: Option<&V>)
        requires
            self.wf(),
        ensures
            match r {
                Some(v) => self@.contains_key(*k) && *v == self@[*k],
                None => !self@.contains_key(*k),
            },
    {
        proof {
            Self::lemma_contains(self.entries@, *k);
        }
        match self.index_of(k) {
            Some(i) => {
                proof {
                    Self::lemma_at_index(self.entries@, i as int);
                }
                Some(&self.entries[i].1)
            },
            None => None,
        }
    }

    /// Removes the key if present; absent keys are left alone.
    pub fn remove(&mut self, k: &K)
        requires
            old(self).wf(),
        ensures
            final(self).wf(),
            final(self)@ == old(self)@.remove(*k),
    {
        proof {
            Self::lemma_contains(self.entries@, *k);
        }
        match self.index_of(k) {
            Some(i) => {
                proof {
                    Self::lemma_remove_at(self.entries@, i as int);
                }
                self.entries.remove(i);
            },
            None => {
                proof {
                    assert(self@.remove(*k) =~= self@);
                }
            },
        }
    }

    /// Binds the key to the value, replacing any previous binding.
    pub fn insert(&mut self, k: K, v: V)
        requires
            old(self).wf(),
        ensures
            final(self).wf(),
            final(self)@ == old(self)@.insert(k, v),
    {
        let ghost pre = self@;
        self.remove(&k);
        proof {
            Self::lemma_contains(self.entries@, k);
            Self::lemma_push(self.entries@, (k, v));
            assert(pre.remove(k).insert(k, v) =~= pre.insert(k, v));
        }
        self.entries.push((k, v));
    }

    /// How many keys the map holds.
    pub fn len(&self) -> (r: usize)
        requires
            self.wf(),
        ensures
            r == self@.dom().len(),
    {
        proof {
            Self::lemma_dom_len(self.entries@);
        }
        self.entries.len()
    }

    /// The entries as a vector; each pair is a binding of the map, and every
    /// binding occurs exactly once.
    pub fn entries(&self) -> (r: &Vec<(K, V)>)
        requires
            self.wf(),
        ensures
            r@.len() == self@.dom().len(),
            forall|i: int|
                0 <= i < r@.len() ==> self@.contains_key((#[trigger] r@[i]).0) && self@[r@[i].0]
                    == r@[i].1,
            forall|k: K| #[trigger]
                self@.contains_key(k) ==> exists|i: int|
                    0 <= i < r@.len() && (#[trigger] r@[i]).0 == k,
    {
        proof {
            Self::lemma_dom_len(self.entries@);
            assert forall|i: int|
                0 <= i < self.entries@.len() implies self@.contains_key(
                (#[trigger] self.entries@[i]).0) && self@[self.entries@[i].0]
                == self.entries@[i].1 by {
                Self::lemma_at_index(self.entries@, i);
            }
            assert forall|k: K| #[trigger] self@.contains_key(k) implies exists|i: int|
                0 <= i < self.entries@.len() && (#[trigger] self.entries@[i]).0 == k by {
                Self::lemma_contains(self.entries@, k);
            }
        }
        &self.entries
    }
}

impl<K: MapKey, V> View for VecMap<K, V> {
    type V = Map<K, V>;

    closed spec fn view(&self) -> Map<K, V> {
        Self::map_of(self.entries@)
    }
}

/// A finite map keyed by strings, abstracted as a `Map<Seq<char>, V>`.
pub struct StringMap<V> {
    entries: Vec<(String, V)>,
}

impl<V> StringMap<V> {
    pub closed spec fn map_of(s: Seq<(String, V)>) -> Map<Seq<char>, V>
        decreases s.len(),
    {
        if s.len() == 0 {
            Map::empty()
        } else {
            Self::map_of(s.drop_last()).insert(s.last().0@, s.last().1)
        }
    }

    pub closed spec fn unique_keys(s: Seq<(String, V)>) -> bool {
        forall|i: int, j: int| 0 <= i < j < s.len() ==> s[i].0@ != s[j].0@
    }

    /// Well-formedness: no name occurs twice.
    pub closed spec fn wf(self) -> bool {
        Self::unique_keys(self.entries@)
    }

    proof fn lemma_contains(s: Seq<(String, V)>, k: Seq<char>)
        ensures
            Self::map_of(s).contains_key(k) <==> exists|i: int|
                0 <= i < s.len() && (#[trigger] s[i]).0@ == k,
        decreases s.len(),
    {
        if s.len() > 0 {
            let prefix = s.drop_last();
            Self::lemma_contains(prefix, k);
            if s.last().0@ == k {
                assert(s[s.len() - 1].0@ == k);
            } else if Self::map_of(s).contains_key(k) {
                let i = choose|i: int| 0 <= i < prefix.len() && (#[trigger] prefix[i]).0@ == k;
                assert(s[i].0@ == k);
            } else {
                assert forall|i: int| 0 <= i < s.len() implies (#[trigger] s[i]).0@ != k by {
                    if i < s.len() - 1 {
                        assert(prefix[i] == s[i]);
                    }
                }
            }
        }
    }

    proof fn lemma_at_index(s: Seq<(String, V)>, i: int)
        requires
            Self::unique_keys(s),
            0 <= i < s.len(),
        ensures
            Self::map_of(s).contains_key(s[i].0@),
            Self::map_of(s)[s[i].0@] == s[i].1,
        decreases s.len(),
    {
        let prefix = s.drop_last();
        if i < s.len() - 1 {
            assert(Self::unique_keys(prefix)) by {
                assert forall|a: int, b: int|
                    0 <= a < b < prefix.len() implies (#[trigger] prefix[a]).0@ != (
                #[trigger] prefix[b]).0@ by {
                    assert(prefix[a] == s[a] && prefix[b] == s[b]);
                }
            }
            Self::lemma_at_index(prefix, i);
            assert(prefix[i] == s[i]);
            assert(s.last().0@ != s[i].0@);
        }
    }

    proof fn lemma_push(s: Seq<(String, V)>, p: (String, V))
        ensures
            Self::map_of(s.push(p)) == Self::map_of(s).insert(p.0@, p.1),
    {
        assert(s.push(p).drop_last() =~= s);
        assert(s.push(p).last() == p);
    }

    proof fn lemma_remove_at(s: Seq<(String, V)>, i: int)
        requires
            Self::unique_keys(s),
            0 <= i < s.len(),
        ensures
            Self::unique_keys(s.remove(i)),
            Self::map_of(s.remove(i)) == Self::map_of(s).remove(s[i].0@),
    {
        let t = s.remove(i);
        let k0 = s[i].0@;
        assert forall|a: int, b: int|
            0 <= a < b < t.len() implies (#[trigger] t[a]).0@ != (#[trigger] t[b]).0@ by {
            let sa: int = if a < i { a } else { a + 1 };
            let sb: int = if b < i { b } else { b + 1 };
            assert(t[a] == s[sa] && t[b] == s[sb]);
        }
        assert(Self::map_of(t) =~= Self::map_of(s).remove(k0)) by {
            Self::lemma_contains(s, k0);
            assert forall|k: Seq<char>| #[trigger]
                Self::map_of(t).contains_key(k) implies Self::map_of(s).remove(k0).contains_key(
                k) && Self::map_of(t)[k] == Self::map_of(s).remove(k0)[k] by {
                Self::lemma_contains(t, k);
                let j = choose|j: int| 0 <= j < t.len() && (#[trigger] t[j]).0@ == k;
                let sj: int = if j < i { j } else { j + 1 };
                assert(t[j] == s[sj]);
                Self::lemma_at_index(t, j);
                Self::lemma_at_index(s, sj);
                assert(k != k0);
            }
            assert forall|k: Seq<char>| #[trigger]
                Self::map_of(s).remove(k0).contains_key(k) implies Self::map_of(
                t).contains_key(k) by {
                Self::lemma_contains(s, k);
                let j = choose|j: int| 0 <= j < s.len() && (#[trigger] s[j]).0@ == k;
                assert(j != i);
                let tj: int = if j < i { j } else { j - 1 };
                assert(t[tj] == s[j]);
                Self::lemma_contains(t, k);
            }
        }
    }

    proof fn lemma_dom_len(s: Seq<(String, V)>)
        requires
            Self::unique_keys(s),
        ensures
            Self::map_of(s).dom().finite(),
            Self::map_of(s).dom().len() == s.len(),
        decreases s.len(),
    {
        if s.len() > 0 {
            let prefix = s.drop_last();
            assert(Self::unique_keys(prefix)) by {
                assert forall|a: int, b: int|
                    0 <= a < b < prefix.len() implies (#[trigger] prefix[a]).0@ != (
                #[trigger] prefix[b]).0@ by {
                    assert(prefix[a] == s[a] && prefix[b] == s[b]);
                }
            }
            Self::lemma_dom_len(prefix);
            Self::lemma_contains(prefix, s.last().0@);
            assert(!Self::map_of(prefix).contains_key(s.last().0@)) by {
                assert forall|i: int|
                    0 <= i < prefix.len() implies (#[trigger] prefix[i]).0@ != s.last().0@ by {
                    assert(prefix[i] == s[i]);
                }
            }
            vstd::set::axiom_set_insert_len(Self::map_of(prefix).dom(), s.last().0@);
        }
    }

    /// An empty map.
    pub fn new() -> (r: Self)
        ensures
            r.wf(),
            r@ == Map::<Seq<char>, V>::empty(),
    {
        StringMap { entries: Vec::new() }
    }

    fn index_of(&self, k: &String) -> (r: Option<usize>)
        ensures
            match r {
                Some(i) => i < self.entries@.len() && self.entries@[i as int].0@ == k@,
                None => forall|i: int|
                    0 <= i < self.entries@.len() ==> (#[trigger] self.entries@[i]).0@ != k@,
            },
    {
        let n = self.entries.len();
        let mut i: usize = 0;
        while i < n
            invariant
                n == self.entries@.len(),
                i <= n,
                forall|j: int| 0 <= j < i ==> (#[trigger] self.entries@[j]).0@ != k@,
            decreases n - i,
        {
            if self.entries[i].0 == *k {
                return Some(i);
            }
            i = i + 1;
        }
        None
    }

    /// Does the map hold the name?
    pub fn contains_key(&self, k: &String) -> (r: bool)
        ensures
            r == self@.contains_key(k@),
    {
        proof {
            Self::lemma_contains(self.entries@, k@);
        }
        match self.index_of(k) {
            Some(_) => true,
            None => false,
        }
    }

    /// The value at a name, if any.
    pub fn get(&self, k: &String) -> (r: Option<&V>)
        requires
            self.wf(),
        ensures
            match r {
                Some(v) => self@.contains_key(k@) && *v == self@[k@],
                None => !self@.contains_key(k@),
            },
    {
        proof {
            Self::lemma_contains(self.entries@, k@);
        }
        match self.index_of(k) {
            Some(i) => {
                proof {
                    Self::lemma_at_index(self.entries@, i as int);
                }
                Some(&self.entries[i].1)
            },
            None => None,
        }
    }

    /// Removes the name if present; absent names are left alone.
    pub fn remove(&mut self, k: &String)
        requires
            old(self).wf(),
        ensures
            final(self).wf(),
            final(self)@ == old(self)@.remove(k@),
    {
        proof {
            Self::lemma_contains(self.entries@, k@);
        }
        match self.index_of(k) {
            Some(i) => {
                proof {
                    Self::lemma_remove_at(self.entries@, i as int);
                }
                self.entries.remove(i);
            },
            None => {
                proof {
                    assert(self@.remove(k@) =~= self@);
                }
            },
        }
    }

    /// Binds the name to the value, replacing any previous binding.
    pub fn insert(&mut self, k: String, v: V)
        requires
            old(self).wf(),
        ensures
            final(self).wf(),
            final(self)@ == old(self)@.insert(k@, v),
    {
        let ghost pre = self@;
        self.remove(&k);
        proof {
            Self::lemma_contains(self.entries@, k@);
            Self::lemma_push(self.entries@, (k, v));
            assert(pre.remove(k@).insert(k@, v) =~= pre.insert(k@, v));
        }
        self.entries.push((k, v));
    }

    /// How many names the map holds.
    pub fn len(&self) -> (r: usize)
        requires
            self.wf(),
        ensures
            r == self@.dom().len(),
    {
        proof {
            Self::lemma_dom_len(self.entries@);
        }
        self.entries.len()
    }

    /// The entries as a vector; each pair is a binding of the map, and every
    /// binding occurs exactly once.
    pub fn entries(&self) -> (r: &Vec<(String, V)>)
        requires
            self.wf(),
        ensures
            r@.len() == self@.dom().len(),
            forall|i: int|
                0 <= i < r@.len() ==> self@.contains_key((#[trigger] r@[i]).0@) && self@[r@[i].0@]
                    == r@[i].1,
            forall|k: Seq<char>| #[trigger]
                self@.contains_key(k) ==> exists|i: int|
                    0 <= i < r@.len() && (#[trigger] r@[i]).0@ == k,
    {
        proof {
            Self::lemma_dom_len(self.entries@);
            assert forall|i: int|
                0 <= i < self.entries@.len() implies self@.contains_key(
                (#[trigger] self.entries@[i]).0@) && self@[self.entries@[i].0@]
                == self.entries@[i].1 by {
                Self::lemma_at_index(self.entries@, i);
            }
            assert forall|k: Seq<char>| #[trigger] self@.contains_key(k) implies exists|i: int|
                0 <= i < self.entries@.len() && (#[trigger] self.entries@[i]).0@ == k by {
                Self::lemma_contains(self.entries@, k);
            }
        }
        &self.entries
    }
}

impl<V> View for StringMap<V> {
    type V = Map<Seq<char>, V>;

    closed spec fn view(&self) -> Map<Seq<char>, V> {
        Self::map_of(self.entries@)
    }
}

} // verus!
