use super::{ascending, lemma_ascending_no_duplicates, PortIdKey};
use core::ops::RangeInclusive;
use vstd::prelude::*;
use vstd::std_specs::iter::IteratorSpec;

verus! {

/// A map of port IDs to arbitrary values, kept in ascending order of the IDs'
/// integers.
#[derive(Debug)]
pub struct PortIdMap<K: PortIdKey, V> {
    keys: Vec<K>,
    values: Vec<V>,
}

impl<K: PortIdKey, V> View for PortIdMap<K, V> {
    type V = Map<K, V>;

    closed spec fn view(&self) -> Map<K, V> {
        Map::new(
            |k: K| self.keys@.contains(k),
            |k: K| self.values@[choose|i: int| 0 <= i < self.keys@.len() && self.keys@[i] == k],
        )
    }
}

impl<K: PortIdKey, V> PortIdMap<K, V> {
    #[verifier::type_invariant]
    spec fn inv(self) -> bool {
        &&& ascending(self.keys@)
        &&& self.keys@.len() == self.values@.len()
    }

    /// The map sends the key at each position to the value at the same position.
    proof fn lemma_at(self, i: int)
        requires
            self.inv(),
            0 <= i < self.keys@.len(),
        ensures
            self@.contains_key(self.keys@[i]),
            self@[self.keys@[i]] == self.values@[i],
    {
        let k = self.keys@[i];
        assert(self.keys@.contains(k));
        let c = choose|c: int| 0 <= c < self.keys@.len() && self.keys@[c] == k;
        lemma_ascending_no_duplicates(self.keys@);
    }

    /// Creates an empty map.
    pub fn new() -> (r: Self)
        ensures
            r@ == Map::<K, V>::empty(),
    {
        let r = PortIdMap { keys: Vec::new(), values: Vec::new() };
        proof {
            assert(r@ =~= Map::<K, V>::empty());
        }
        r
    }

    /// Returns the key with the least integer, if any.
    pub fn first(&self) -> (r: Option<&K>)
        ensures
            r is None <==> self@.is_empty(),
            r matches Some(k) ==> self@.contains_key(*k) && forall|j: K|
                self@.contains_key(j) ==> k.key() <= #[trigger] j.key(),
    {
        proof {
            use_type_invariant(self);
        }
        if self.keys.len() == 0 {
            proof {
                assert(self@ =~= Map::<K, V>::empty());
            }
            None
        } else {
            let k = &self.keys[0];
            proof {
                assert(self.keys@.contains(*k));
                assert(!Map::<K, V>::empty().contains_key(*k));
                assert forall|j: K| self@.contains_key(j) implies k.key() <= #[trigger] j.key() by {
                    let i = choose|i: int| 0 <= i < self.keys@.len() && self.keys@[i] == j;
                    if i > 0 {
                        assert(self.keys@[0].key() < self.keys@[i].key());
                    }
                }
            }
            Some(k)
        }
    }

    /// Returns the key with the greatest integer, if any.
    pub fn last(&self) -> (r: Option<&K>)
        ensures
            r is None <==> self@.is_empty(),
            r matches Some(k) ==> self@.contains_key(*k) && forall|j: K|
                self@.contains_key(j) ==> #[trigger] j.key() <= k.key(),
    {
        proof {
            use_type_invariant(self);
        }
        let n = self.keys.len();
        if n == 0 {
            proof {
                assert(self@ =~= Map::<K, V>::empty());
            }
            None
        } else {
            let k = &self.keys[n - 1];
            proof {
                assert(self.keys@.contains(*k));
                assert(!Map::<K, V>::empty().contains_key(*k));
                assert forall|j: K| self@.contains_key(j) implies #[trigger] j.key() <= k.key() by {
                    let i = choose|i: int| 0 <= i < self.keys@.len() && self.keys@[i] == j;
                    if i < n - 1 {
                        assert(self.keys@[i].key() < self.keys@[n - 1].key());
                    }
                }
            }
            Some(k)
        }
    }

    /// Returns the position of the first key whose integer is not below `key`.
    fn position(&self, key: isize) -> (r: usize)
        ensures
            r <= self.keys@.len(),
            forall|i: int| 0 <= i < r ==> (#[trigger] self.keys@[i]).key() < key,
            r < self.keys@.len() ==> key <= self.keys@[r as int].key(),
    {
        let mut pos: usize = 0;
        while pos < self.keys.len()
            invariant
                pos <= self.keys@.len(),
                forall|i: int| 0 <= i < pos ==> (#[trigger] self.keys@[i]).key() < key,
            decreases self.keys@.len() - pos,
        {
            if self.keys[pos].as_key() >= key {
                return pos;
            }
            pos = pos + 1;
        }
        pos
    }

    /// Maps `id` to `value`, replacing any earlier value; returns whether `id` was
    /// not a key yet.
    pub fn insert(&mut self, id: K, value: V) -> (r: bool)
        ensures
            final(self)@ == old(self)@.insert(id, value),
            r == !old(self)@.contains_key(id),
    {
        proof {
            use_type_invariant(&*self);
            lemma_ascending_no_duplicates(self.keys@);
        }
        let key = id.as_key();
        let pos = self.position(key);
        let ghost old_self = *self;
        let ghost old_keys = self.keys@;
        let ghost old_values = self.values@;
        let mut taken = PortIdMap { keys: Vec::new(), values: Vec::new() };
        core::mem::swap(self, &mut taken);
        let PortIdMap { mut keys, mut values } = taken;
        if pos < keys.len() && keys[pos].as_key() == key {
            proof {
                K::lemma_key_injective(old_keys[pos as int], id);
                assert(old_keys.contains(id));
            }
            values.set(pos, value);
            *self = PortIdMap { keys, values };
            proof {
                lemma_ascending_no_duplicates(self.keys@);
                assert forall|k: K| #[trigger] self@.contains_key(k) implies self@[k]
                    == old_self@.insert(id, value)[k] by {
                    let i = choose|i: int| 0 <= i < old_keys.len() && old_keys[i] == k;
                    self.lemma_at(i);
                    old_self.lemma_at(i);
                }
                assert(self@ =~= old_self@.insert(id, value));
            }
            return false;
        }
        proof {
            assert forall|i: int| 0 <= i < old_keys.len() implies #[trigger] old_keys[i] != id by {
                if i > pos {
                    assert(old_keys[pos as int].key() < old_keys[i].key());
                }
            }
        }
        keys.insert(pos, id);
        values.insert(pos, value);
        proof {
            old_keys.insert_ensures(pos as int, id);
            old_values.insert_ensures(pos as int, value);
            let s = keys@;
            assert forall|i: int, j: int| 0 <= i < j < s.len() implies (#[trigger] s[i]).key() < (
            #[trigger] s[j]).key() by {
                if j < pos {
                } else if j == pos {
                } else if i < pos {
                    assert(s[j] == old_keys[j - 1]);
                } else if i == pos {
                    assert(s[j] == old_keys[j - 1]);
                } else {
                    assert(s[i] == old_keys[i - 1]);
                    assert(s[j] == old_keys[j - 1]);
                }
            }
        }
        *self = PortIdMap { keys, values };
        proof {
            let s = self.keys@;
            assert forall|k: K| #[trigger] self@.contains_key(k) <==> old_self@.insert(
                id,
                value,
            ).contains_key(k) by {
                if s.contains(k) {
                    let i = choose|i: int| 0 <= i < s.len() && s[i] == k;
                    if i < pos {
                        assert(old_keys[i] == k);
                    } else if i > pos {
                        assert(old_keys[i - 1] == k);
                    }
                }
                if old_keys.contains(k) {
                    let i = choose|i: int| 0 <= i < old_keys.len() && old_keys[i] == k;
                    if i < pos {
                        assert(s[i] == k);
                    } else {
                        assert(s[i + 1] == k);
                    }
                }
                if k == id {
                    assert(s[pos as int] == k);
                }
            }
            assert forall|k: K| #[trigger] self@.contains_key(k) implies self@[k]
                == old_self@.insert(id, value)[k] by {
                let i = choose|i: int| 0 <= i < s.len() && s[i] == k;
                self.lemma_at(i);
                if i < pos {
                    old_self.lemma_at(i);
                } else if i > pos {
                    old_self.lemma_at(i - 1);
                }
            }
            assert(self@ =~= old_self@.insert(id, value));
        }
        true
    }

    /// Checks whether a port ID is a key.
    pub fn contains(&self, id: K) -> (r: bool)
        ensures
            r == self@.contains_key(id),
    {
        proof {
            use_type_invariant(self);
        }
        let key = id.as_key();
        let pos = self.position(key);
        if pos < self.keys.len() && self.keys[pos].as_key() == key {
            proof {
                K::lemma_key_injective(self.keys@[pos as int], id);
                assert(self.keys@.contains(id));
            }
            true
        } else {
            proof {
                assert forall|i: int| 0 <= i < self.keys@.len() implies #[trigger] self.keys@[i]
                    != id by {
                    if i > pos {
                        assert(self.keys@[pos as int].key() < self.keys@[i].key());
                    }
                }
            }
            false
        }
    }

    /// Returns the value that a port ID maps to, if any.
    pub fn get(&self, id: K) -> (r: Option<&V>)
        ensures
            r is Some <==> self@.contains_key(id),
            r matches Some(v) ==> *v == self@[id],
    {
        proof {
            use_type_invariant(self);
        }
        let key = id.as_key();
        let pos = self.position(key);
        if pos < self.keys.len() && self.keys[pos].as_key() == key {
            proof {
                K::lemma_key_injective(self.keys@[pos as int], id);
                self.lemma_at(pos as int);
            }
            Some(&self.values[pos])
        } else {
            proof {
                assert forall|i: int| 0 <= i < self.keys@.len() implies #[trigger] self.keys@[i]
                    != id by {
                    if i > pos {
                        assert(self.keys@[pos as int].key() < self.keys@[i].key());
                    }
                }
            }
            None
        }
    }

    /// Returns the number of keys.
    pub fn len(&self) -> (r: usize)
        ensures
            r == self@.len(),
    {
        proof {
            use_type_invariant(self);
            lemma_ascending_no_duplicates(self.keys@);
            self.keys@.unique_seq_to_set();
            assert(self@.dom() =~= self.keys@.to_set());
        }
        self.keys.len()
    }

    /// Checks whether the map has no keys.
    pub fn is_empty(&self) -> (r: bool)
        ensures
            r == self@.is_empty(),
    {
        proof {
            if self.keys@.len() > 0 {
                assert(self.keys@.contains(self.keys@[0]));
                assert(self@.contains_key(self.keys@[0]));
                assert(!Map::<K, V>::empty().contains_key(self.keys@[0]));
            } else {
                assert(self@ =~= Map::<K, V>::empty());
            }
        }
        self.keys.len() == 0
    }

    /// Returns an iterator over the keys in ascending order.
    pub fn iter(&self) -> (r: core::slice::Iter<'_, K>)
        ensures
            r.remaining().len() == self@.len(),
            forall|i: int|
                0 <= i < r.remaining().len() ==> self@.contains_key(*#[trigger] r.remaining()[i]),
    {
        broadcast use vstd::std_specs::slice::axiom_spec_slice_iter;

        proof {
            use_type_invariant(self);
            lemma_ascending_no_duplicates(self.keys@);
            self.keys@.unique_seq_to_set();
            assert(self@.dom() =~= self.keys@.to_set());
            assert forall|i: int| 0 <= i < self.keys@.len() implies self@.contains_key(
                self.keys@[i],
            ) by {
                assert(self.keys@.contains(self.keys@[i]));
            }
        }
        self.keys.as_slice().iter()
    }

    /// Returns the range from the least to the greatest key's integer, if any.
    pub fn range(&self) -> (r: Option<RangeInclusive<isize>>)
        ensures
            r is None <==> self@.is_empty(),
            r matches Some(range) ==> (exists|a: K, b: K|
                self@.contains_key(a) && self@.contains_key(b) && range@.start == a.key()
                    && range@.end == b.key()) && forall|j: K|
                self@.contains_key(j) ==> range@.start <= #[trigger] j.key() <= range@.end,
    {
        match self.first() {
            None => None,
            Some(min) => {
                let max = self.last().unwrap();
                Some(RangeInclusive::new(min.as_key(), max.as_key()))
            },
        }
    }
}

impl<K: PortIdKey, V: Copy> Clone for PortIdMap<K, V> {
    fn clone(&self) -> (r: Self)
        ensures
            r@ == self@,
    {
        proof {
            use_type_invariant(self);
        }
        let mut keys: Vec<K> = Vec::new();
        let mut values: Vec<V> = Vec::new();
        let mut i: usize = 0;
        while i < self.keys.len()
            invariant
                i <= self.keys@.len(),
                self.keys@.len() == self.values@.len(),
                keys@ == self.keys@.take(i as int),
                values@ == self.values@.take(i as int),
            decreases self.keys@.len() - i,
        {
            keys.push(self.keys[i]);
            values.push(self.values[i]);
            proof {
                assert(self.keys@.take(i as int + 1) =~= self.keys@.take(i as int).push(
                    self.keys@[i as int],
                ));
                assert(self.values@.take(i as int + 1) =~= self.values@.take(i as int).push(
                    self.values@[i as int],
                ));
            }
            i = i + 1;
        }
        proof {
            assert(self.keys@.take(self.keys@.len() as int) =~= self.keys@);
            assert(self.values@.take(self.values@.len() as int) =~= self.values@);
        }
        let r = PortIdMap { keys, values };
        proof {
            assert(r@ =~= self@);
        }
        r
    }
}

impl<K: PortIdKey, V> Default for PortIdMap<K, V> {
    fn default() -> (r: Self)
        ensures
            r@ == Map::<K, V>::empty(),
    {
        PortIdMap::new()
    }
}

} // verus!
