//! A small map keyed by strings that remembers the order in which its keys
//! arrived. It stands where a hash map keyed by names would: no key occurs
//! twice, and walking it visits the entries in insertion order.

use crate::text::str_equal;
use vstd::prelude::*;

verus! {

/// An insertion-ordered map from strings to `V`.
#[derive(Debug)]
pub struct StrMap<V> {
    names: Vec<String>,
    items: Vec<V>,
}

/// The character sequences of a column of names.
pub open spec fn texts_of(names: Seq<String>) -> Seq<Seq<char>> {
    Seq::new(names.len(), |i: int| names[i]@)
}

impl<V> StrMap<V> {
    /// The keys, in insertion order.
    pub closed spec fn keys(&self) -> Seq<Seq<char>> {
        texts_of(self.names@)
    }

    /// The values, each at the position of its key.
    pub closed spec fn vals(&self) -> Seq<V> {
        self.items@
    }

    /// One value for each key, and no key twice.
    #[verifier::type_invariant]
    pub open spec fn wf(&self) -> bool {
        &&& self.keys().len() == self.vals().len()
        &&& self.keys().no_duplicates()
    }

    /// Whether `key` is present.
    pub open spec fn has(&self, key: Seq<char>) -> bool {
        self.keys().contains(key)
    }

    /// The value stored under `key`, meaningful where `has(key)`.
    pub open spec fn value_of(&self, key: Seq<char>) -> V {
        self.vals()[self.keys().index_of(key)]
    }

    /// The contents as a mathematical map.
    pub open spec fn as_map(&self) -> Map<Seq<char>, V> {
        Map::new(|k: Seq<char>| self.has(k), |k: Seq<char>| self.value_of(k))
    }

    /// In a well-formed map the key at position `i` is found at `i`, and its
    /// value is the one stored there.
    pub proof fn lemma_position(&self, i: int)
        requires
            self.wf(),
            0 <= i < self.keys().len(),
        ensures
            self.has(self.keys()[i]),
            self.keys().index_of(self.keys()[i]) == i,
            self.value_of(self.keys()[i]) == self.vals()[i],
    {
        let k = self.keys()[i];
        assert(self.keys().contains(k));
        let j = self.keys().index_of(k);
        assert(self.keys()[j] == k);
    }

    /// An empty map.
    pub fn new() -> (m: Self)
        ensures
            m.keys() == Seq::<Seq<char>>::empty(),
            m.vals() == Seq::<V>::empty(),
            m.wf(),
    {
        let m = StrMap { names: Vec::new(), items: Vec::new() };
        assert(m.keys() =~= Seq::<Seq<char>>::empty());
        m
    }

    /// Moves the two columns out and leaves the map empty, so that they can be
    /// changed and put back without the map ever holding half a change.
    fn take_parts(&mut self) -> (parts: (Vec<String>, Vec<V>))
        ensures
            final(self).keys() == Seq::<Seq<char>>::empty(),
            final(self).vals() == Seq::<V>::empty(),
            texts_of(parts.0@) == old(self).keys(),
            parts.1@ == old(self).vals(),
            old(self).wf(),
    {
        proof {
            use_type_invariant(&*self);
        }
        let mut taken = StrMap::new();
        core::mem::swap(self, &mut taken);
        let StrMap { names, items } = taken;
        (names, items)
    }

    /// The number of entries.
    pub fn len(&self) -> (n: usize)
        ensures
            n == self.keys().len(),
            n == self.vals().len(),
            self.wf(),
    {
        proof {
            use_type_invariant(self);
        }
        self.names.len()
    }

    /// Whether the map holds nothing.
    pub fn is_empty(&self) -> (r: bool)
        ensures
            r == (self.keys().len() == 0),
            self.wf(),
    {
        proof {
            use_type_invariant(self);
        }
        self.names.len() == 0
    }

    /// The key at position `i`.
    pub fn key_at(&self, i: usize) -> (k: &String)
        requires
            i < self.keys().len(),
        ensures
            k@ == self.keys()[i as int],
    {
        &self.names[i]
    }

    /// The value at position `i`.
    pub fn value_at(&self, i: usize) -> (v: &V)
        requires
            i < self.vals().len(),
        ensures
            *v == self.vals()[i as int],
    {
        &self.items[i]
    }

    /// The position of `key`, if it is present.
    pub fn position(&self, key: &str) -> (r: Option<usize>)
        ensures
            self.wf(),
            match r {
                Some(i) => i < self.keys().len() && self.keys()[i as int] == key@
                    && self.keys().index_of(key@) == i,
                None => !self.has(key@),
            },
    {
        proof {
            use_type_invariant(self);
        }
        let mut i: usize = 0;
        while i < self.names.len()
            invariant
                i <= self.names@.len(),
                self.wf(),
                forall|j: int| 0 <= j < i ==> self.keys()[j] != key@,
            decreases self.names@.len() - i,
        {
            if str_equal(self.names[i].as_str(), key) {
                assert(self.keys()[i as int] == key@);
                assert(self.keys().contains(key@));
                let ghost j = self.keys().index_of(key@);
                assert(self.keys()[j] == key@);
                return Some(i);
            }
            i += 1;
        }
        None
    }

    /// Whether `key` is present.
    pub fn contains_key(&self, key: &str) -> (r: bool)
        ensures
            r == self.has(key@),
            self.wf(),
    {
        self.position(key).is_some()
    }

    /// The value stored under `key`, if any.
    pub fn get(&self, key: &str) -> (r: Option<&V>)
        ensures
            self.wf(),
            match r {
                Some(v) => self.has(key@) && *v == self.value_of(key@),
                None => !self.has(key@),
            },
    {
        match self.position(key) {
            Some(i) => Some(&self.items[i]),
            None => None,
        }
    }

    /// Stores `value` under `key`. A key that is already present keeps its
    /// place and has its value replaced; a new key goes to the end.
    pub fn insert(&mut self, key: String, value: V)
        ensures
            old(self).wf(),
            final(self).wf(),
            old(self).has(key@) ==> final(self).keys() == old(self).keys() && final(self).vals()
                == old(self).vals().update(old(self).keys().index_of(key@), value),
            !old(self).has(key@) ==> final(self).keys() == old(self).keys().push(key@) && final(self).vals() == old(self).vals().push(value),
    {
        let found = self.position(key.as_str());
        proof {
            use_type_invariant(&*self);
        }
        let ghost before = self.keys();
        let (mut names, mut items) = self.take_parts();
        match found {
            Some(i) => {
                items.set(i, value);
                *self = StrMap { names, items };
            },
            None => {
                names.push(key);
                items.push(value);
                let ghost after = texts_of(names@);
                assert(after =~= before.push(key@));
                assert(after.no_duplicates()) by {
                    assert forall|a: int, b: int|
                        0 <= a < after.len() && 0 <= b < after.len() && a != b implies after[a]
                        != after[b] by {
                        if a < before.len() {
                            assert(before.contains(before[a]));
                        }
                        if b < before.len() {
                            assert(before.contains(before[b]));
                        }
                    }
                }
                *self = StrMap { names, items };
            },
        }
    }

    /// Takes `key` and its value out, if present. The other entries keep
    /// their order.
    pub fn remove(&mut self, key: &str) -> (r: Option<V>)
        ensures
            old(self).wf(),
            final(self).wf(),
            match r {
                Some(v) => old(self).has(key@) && v == old(self).value_of(key@) && final(self).keys() == old(self).keys().remove(old(self).keys().index_of(key@)) && final(self).vals() == old(self).vals().remove(old(self).keys().index_of(key@)),
                None => !old(self).has(key@) && final(self).keys() == old(self).keys() && final(self).vals() == old(self).vals(),
            },
            !final(self).has(key@),
    {
        let found = self.position(key);
        proof {
            use_type_invariant(&*self);
        }
        match found {
            Some(i) => {
                let ghost before = self.keys();
                let (mut names, mut items) = self.take_parts();
                let _name = names.remove(i);
                let v = items.remove(i);
                let ghost after = texts_of(names@);
                assert(after =~= before.remove(i as int));
                assert(after.no_duplicates() && !after.contains(key@)) by {
                    assert forall|a: int| 0 <= a < after.len() implies after[a] != key@ by {
                        if a < i {
                            assert(after[a] == before[a]);
                        } else {
                            assert(after[a] == before[a + 1]);
                        }
                    }
                    assert forall|a: int, b: int|
                        0 <= a < after.len() && 0 <= b < after.len() && a != b implies after[a]
                        != after[b] by {
                        let a0 = if a < i { a } else { a + 1 };
                        let b0 = if b < i { b } else { b + 1 };
                        assert(after[a] == before[a0]);
                        assert(after[b] == before[b0]);
                    }
                }
                *self = StrMap { names, items };
                Some(v)
            },
            None => None,
        }
    }

    /// Replaces the value at position `i`.
    pub fn set_value_at(&mut self, i: usize, value: V)
        requires
            i < old(self).vals().len(),
        ensures
            old(self).wf(),
            final(self).wf(),
            final(self).keys() == old(self).keys(),
            final(self).vals() == old(self).vals().update(i as int, value),
    {
        proof {
            use_type_invariant(&*self);
        }
        let ghost before = self.keys();
        let (names, mut items) = self.take_parts();
        items.set(i, value);
        *self = StrMap { names, items };
    }

    /// Empties the map.
    pub fn clear(&mut self)
        ensures
            final(self).wf(),
            final(self).keys() == Seq::<Seq<char>>::empty(),
            final(self).vals() == Seq::<V>::empty(),
    {
        *self = StrMap::new();
    }
}

impl<V: Clone> Clone for StrMap<V> {
    /// A copy with the same keys in the same order, each value cloned.
    fn clone(&self) -> (r: Self)
        ensures
            r.wf(),
            self.wf(),
            r.keys() == self.keys(),
            r.vals().len() == self.vals().len(),
            forall|i: int| 0 <= i < self.vals().len() ==> cloned(self.vals()[i], r.vals()[i]),
    {
        proof {
            use_type_invariant(self);
        }
        let names = self.names.clone();
        let items = self.items.clone();
        assert(texts_of(names@) =~= texts_of(self.names@));
        StrMap { names, items }
    }
}

/// Which keys a table has after `key` was stored in it.
pub proof fn lemma_insert_keys<V>(before: StrMap<V>, after: StrMap<V>, key: Seq<char>, k: Seq<char>)
    requires
        before.wf(),
        after.wf(),
        before.has(key) ==> after.keys() == before.keys(),
        !before.has(key) ==> after.keys() == before.keys().push(key),
    ensures
        after.has(k) == (k == key || before.has(k)),
{
    if before.has(key) {
    } else {
        let ks = before.keys();
        if ks.contains(k) {
            let j = ks.index_of(k);
            assert(ks[j] == k);
            assert(ks.push(key)[j] == k);
        }
        if k == key {
            assert(ks.push(key)[ks.len() as int] == key);
        }
        if after.has(k) && k != key {
            let j = after.keys().index_of(k);
            assert(after.keys()[j] == k);
            assert(ks[j] == k);
        }
    }
}

/// Which value a table holds under `k` after `value` was stored under `key`.
pub proof fn lemma_insert_value<V>(
    before: StrMap<V>,
    after: StrMap<V>,
    key: Seq<char>,
    value: V,
    k: Seq<char>,
)
    requires
        before.wf(),
        after.wf(),
        after.has(k),
        before.has(key) ==> after.keys() == before.keys() && after.vals() == before.vals().update(
            before.keys().index_of(key),
            value,
        ),
        !before.has(key) ==> after.keys() == before.keys().push(key) && after.vals()
            == before.vals().push(value),
    ensures
        after.value_of(k) == if k == key {
            value
        } else {
            before.value_of(k)
        },
{
    let j = after.keys().index_of(k);
    assert(after.keys()[j] == k);
    after.lemma_position(j);
    if before.has(key) {
        let i = before.keys().index_of(key);
        assert(before.keys()[i] == key);
        before.lemma_position(i);
        before.lemma_position(j);
    } else {
        if k == key {
            assert(after.keys()[before.keys().len() as int] == key);
            after.lemma_position(before.keys().len() as int);
        } else {
            assert(before.keys()[j] == k);
            before.lemma_position(j);
        }
    }
}

} // verus!
