use super::PortIdKey;
use core::ops::RangeInclusive;
use vstd::prelude::*;
use vstd::std_specs::iter::IteratorSpec;

verus! {

/// Whether the keys of `s` strictly increase.
pub open spec fn ascending<K: PortIdKey>(s: Seq<K>) -> bool {
    forall|i: int, j: int|
        0 <= i < j < s.len() ==> (#[trigger] s[i]).key() < (#[trigger] s[j]).key()
}

/// Whether `k` has the least key in `s`.
pub open spec fn is_least<K: PortIdKey>(s: Set<K>, k: K) -> bool {
    s.contains(k) && forall|j: K| s.contains(j) ==> k.key() <= #[trigger] j.key()
}

/// Whether `k` has the greatest key in `s`.
pub open spec fn is_greatest<K: PortIdKey>(s: Set<K>, k: K) -> bool {
    s.contains(k) && forall|j: K| s.contains(j) ==> #[trigger] j.key() <= k.key()
}

/// Whether the members of `s` are distinct and none is in `taken`.
pub open spec fn fresh_ports<K>(s: Seq<K>, taken: Set<K>) -> bool {
    &&& s.no_duplicates()
    &&& forall|i: int| 0 <= i < s.len() ==> !taken.contains(#[trigger] s[i])
}

/// An ascending sequence holds no element twice.
pub proof fn lemma_ascending_no_duplicates<K: PortIdKey>(s: Seq<K>)
    requires
        ascending(s),
    ensures
        s.no_duplicates(),
{
}

/// A set of port IDs, kept in ascending order of their integers.
#[derive(Debug)]
pub struct PortIdSet<K: PortIdKey> {
    ids: Vec<K>,
}

impl<K: PortIdKey> View for PortIdSet<K> {
    type V = Set<K>;

    closed spec fn view(&self) -> Set<K> {
        self.ids@.to_set()
    }
}

impl<K: PortIdKey> PortIdSet<K> {
    #[verifier::type_invariant]
    spec fn inv(self) -> bool {
        ascending(self.ids@)
    }

    /// The members in ascending order of their integers.
    pub closed spec fn seq(self) -> Seq<K> {
        self.ids@
    }

    /// Creates an empty set.
    pub fn new() -> (r: Self)
        ensures
            r@ == Set::<K>::empty(),
    {
        let r = PortIdSet { ids: Vec::new() };
        proof {
            assert(r@ =~= Set::<K>::empty());
        }
        r
    }

    /// Creates the set of the port IDs in `ids`.
    pub fn from_ids(ids: &Vec<K>) -> (r: Self)
        ensures
            r@ == ids@.to_set(),
    {
        let mut r = PortIdSet::new();
        let mut i: usize = 0;
        while i < ids.len()
            invariant
                i <= ids@.len(),
                r@ == ids@.take(i as int).to_set(),
            decreases ids@.len() - i,
        {
            r.insert(ids[i]);
            proof {
                assert(ids@.take(i as int + 1) =~= ids@.take(i as int).push(ids@[i as int]));
                ids@.take(i as int).lemma_push_to_set_commute(ids@[i as int]);
            }
            i = i + 1;
        }
        proof {
            assert(ids@.take(ids@.len() as int) =~= ids@);
        }
        r
    }

    /// Returns a port ID that is a member or that `ids` lists twice, if any;
    /// `None` exactly when the IDs in `ids` are distinct and none is a member.
    pub fn first_taken(&self, ids: &Vec<K>) -> (r: Option<K>)
        ensures
            r is None <==> fresh_ports(ids@, self@),
            r matches Some(id) ==> ids@.contains(id),
    {
        let mut seen = PortIdSet::new();
        let mut i: usize = 0;
        while i < ids.len()
            invariant
                i <= ids@.len(),
                seen@ == ids@.take(i as int).to_set(),
                fresh_ports(ids@.take(i as int), self@),
            decreases ids@.len() - i,
        {
            let id = ids[i];
            proof {
                assert(ids@.take(i as int + 1) =~= ids@.take(i as int).push(id));
            }
            if self.contains(id) || seen.contains(id) {
                proof {
                    assert(ids@.contains(id));
                    if !self@.contains(id) {
                        let j = choose|j: int| 0 <= j < i && ids@.take(i as int)[j] == id;
                        assert(ids@[j] == ids@[i as int]);
                    }
                }
                return Some(id);
            }
            seen.insert(id);
            proof {
                ids@.take(i as int).lemma_push_to_set_commute(id);
            }
            i = i + 1;
        }
        proof {
            assert(ids@.take(ids@.len() as int) =~= ids@);
        }
        None
    }

    /// Inserts every port ID in `ids`.
    pub fn insert_all(&mut self, ids: &Vec<K>)
        ensures
            final(self)@ == old(self)@.union(ids@.to_set()),
    {
        let ghost start = self@;
        let mut i: usize = 0;
        proof {
            assert(start.union(ids@.take(0).to_set()) =~= start);
        }
        while i < ids.len()
            invariant
                i <= ids@.len(),
                self@ == start.union(ids@.take(i as int).to_set()),
            decreases ids@.len() - i,
        {
            let id = ids[i];
            self.insert(id);
            proof {
                assert(ids@.take(i as int + 1) =~= ids@.take(i as int).push(id));
                ids@.take(i as int).lemma_push_to_set_commute(id);
                assert(self@ =~= start.union(ids@.take(i as int + 1).to_set()));
            }
            i = i + 1;
        }
        proof {
            assert(ids@.take(ids@.len() as int) =~= ids@);
        }
    }

    /// Returns the member with the least integer, if any.
    pub fn first(&self) -> (r: Option<&K>)
        ensures
            r is None <==> self@.is_empty(),
            r matches Some(k) ==> is_least(self@, *k),
    {
        proof {
            use_type_invariant(self);
        }
        if self.ids.len() == 0 {
            proof {
                assert(self@ =~= Set::<K>::empty());
            }
            None
        } else {
            let k = &self.ids[0];
            proof {
                assert(self.ids@.contains(*k));
                assert(!Set::<K>::empty().contains(*k));
                assert forall|j: K| self@.contains(j) implies k.key() <= #[trigger] j.key() by {
                    let i = choose|i: int| 0 <= i < self.ids@.len() && self.ids@[i] == j;
                    if i > 0 {
                        assert(self.ids@[0].key() < self.ids@[i].key());
                    }
                }
            }
            Some(k)
        }
    }

    /// Returns the member with the greatest integer, if any.
    pub fn last(&self) -> (r: Option<&K>)
        ensures
            r is None <==> self@.is_empty(),
            r matches Some(k) ==> is_greatest(self@, *k),
    {
        proof {
            use_type_invariant(self);
        }
        let n = self.ids.len();
        if n == 0 {
            proof {
                assert(self@ =~= Set::<K>::empty());
            }
            None
        } else {
            let k = &self.ids[n - 1];
            proof {
                assert(self.ids@.contains(*k));
                assert(!Set::<K>::empty().contains(*k));
                assert forall|j: K| self@.contains(j) implies #[trigger] j.key() <= k.key() by {
                    let i = choose|i: int| 0 <= i < self.ids@.len() && self.ids@[i] == j;
                    if i < n - 1 {
                        assert(self.ids@[i].key() < self.ids@[n - 1].key());
                    }
                }
            }
            Some(k)
        }
    }

    /// Returns the position of the first member whose integer is not below `key`.
    fn position(&self, key: isize) -> (r: usize)
        ensures
            r <= self.seq().len(),
            forall|i: int| 0 <= i < r ==> (#[trigger] self.seq()[i]).key() < key,
            r < self.seq().len() ==> key <= self.seq()[r as int].key(),
    {
        let mut pos: usize = 0;
        while pos < self.ids.len()
            invariant
                pos <= self.ids@.len(),
                forall|i: int| 0 <= i < pos ==> (#[trigger] self.ids@[i]).key() < key,
            decreases self.ids@.len() - pos,
        {
            if self.ids[pos].as_key() >= key {
                return pos;
            }
            pos = pos + 1;
        }
        pos
    }

    /// Inserts a port ID, returning whether it was not a member yet.
    pub fn insert(&mut self, id: K) -> (r: bool)
        ensures
            final(self)@ == old(self)@.insert(id),
            r == !old(self)@.contains(id),
    {
        proof {
            use_type_invariant(&*self);
        }
        let key = id.as_key();
        let pos = self.position(key);
        if pos < self.ids.len() && self.ids[pos].as_key() == key {
            proof {
                K::lemma_key_injective(self.ids@[pos as int], id);
                assert(self.ids@.contains(id));
                assert(self@.insert(id) =~= self@);
            }
            return false;
        }
        let ghost old_ids = self.ids@;
        proof {
            assert forall|i: int| 0 <= i < old_ids.len() implies #[trigger] old_ids[i] != id by {
                if i >= pos {
                    if i > pos {
                        assert(old_ids[pos as int].key() < old_ids[i].key());
                    }
                }
            }
        }
        let mut ids = Vec::new();
        core::mem::swap(&mut self.ids, &mut ids);
        ids.insert(pos, id);
        self.ids = ids;
        proof {
            old_ids.insert_ensures(pos as int, id);
            let s = self.ids@;
            assert(s == old_ids.insert(pos as int, id));
            assert forall|i: int, j: int| 0 <= i < j < s.len() implies (#[trigger] s[i]).key() < (
            #[trigger] s[j]).key() by {
                if j < pos {
                } else if j == pos {
                } else if i < pos {
                    assert(s[j] == old_ids[j - 1]);
                } else if i == pos {
                    assert(s[j] == old_ids[j - 1]);
                } else {
                    assert(s[i] == old_ids[i - 1]);
                    assert(s[j] == old_ids[j - 1]);
                }
            }
            assert forall|x: K| s.contains(x) <==> old_ids.contains(x) || x == id by {
                if s.contains(x) {
                    let i = choose|i: int| 0 <= i < s.len() && s[i] == x;
                    if i < pos {
                        assert(old_ids[i] == x);
                    } else if i > pos {
                        assert(old_ids[i - 1] == x);
                    }
                }
                if old_ids.contains(x) {
                    let i = choose|i: int| 0 <= i < old_ids.len() && old_ids[i] == x;
                    if i < pos {
                        assert(s[i] == x);
                    } else {
                        assert(s[i + 1] == x);
                    }
                }
                if x == id {
                    assert(s[pos as int] == x);
                }
            }
            assert(s.to_set() =~= old_ids.to_set().insert(id));
        }
        true
    }

    /// Checks whether a port ID is a member.
    pub fn contains(&self, id: K) -> (r: bool)
        ensures
            r == self@.contains(id),
    {
        proof {
            use_type_invariant(self);
        }
        let key = id.as_key();
        let pos = self.position(key);
        if pos < self.ids.len() && self.ids[pos].as_key() == key {
            proof {
                K::lemma_key_injective(self.ids@[pos as int], id);
                assert(self.ids@.contains(id));
            }
            true
        } else {
            proof {
                assert forall|i: int| 0 <= i < self.ids@.len() implies #[trigger] self.ids@[i]
                    != id by {
                    if i > pos {
                        assert(self.ids@[pos as int].key() < self.ids@[i].key());
                    }
                }
            }
            false
        }
    }

    /// Returns the number of members.
    pub fn len(&self) -> (r: usize)
        ensures
            r == self@.len(),
    {
        proof {
            use_type_invariant(self);
            lemma_ascending_no_duplicates(self.ids@);
            self.ids@.unique_seq_to_set();
        }
        self.ids.len()
    }

    /// Checks whether the set has no members.
    pub fn is_empty(&self) -> (r: bool)
        ensures
            r == self@.is_empty(),
    {
        proof {
            if self.ids@.len() > 0 {
                assert(self@.contains(self.ids@[0]));
            } else {
                assert(self@ =~= Set::<K>::empty());
            }
        }
        self.ids.len() == 0
    }

    /// Returns an iterator over the members in ascending order.
    pub fn iter(&self) -> (r: core::slice::Iter<'_, K>)
        ensures
            r.remaining() == self.seq().as_ref(),
    {
        broadcast use vstd::std_specs::slice::axiom_spec_slice_iter;

        self.ids.as_slice().iter()
    }

    /// Returns the least and the greatest member, if any.
    pub fn range(&self) -> (r: Option<RangeInclusive<K>>)
        ensures
            r is None <==> self@.is_empty(),
            r matches Some(range) ==> is_least(self@, range@.start) && is_greatest(
                self@,
                range@.end,
            ),
    {
        match self.first() {
            None => None,
            Some(min) => {
                let max = self.last().unwrap();
                Some(RangeInclusive::new(*min, *max))
            },
        }
    }
}

impl<K: PortIdKey> Clone for PortIdSet<K> {
    fn clone(&self) -> (r: Self)
        ensures
            r@ == self@,
    {
        proof {
            use_type_invariant(self);
        }
        let mut ids: Vec<K> = Vec::new();
        let mut i: usize = 0;
        while i < self.ids.len()
            invariant
                i <= self.ids@.len(),
                ids@ == self.ids@.take(i as int),
            decreases self.ids@.len() - i,
        {
            ids.push(self.ids[i]);
            proof {
                assert(self.ids@.take(i as int + 1) =~= self.ids@.take(i as int).push(
                    self.ids@[i as int],
                ));
            }
            i = i + 1;
        }
        proof {
            assert(self.ids@.take(self.ids@.len() as int) =~= self.ids@);
        }
        PortIdSet { ids }
    }
}

impl<K: PortIdKey> Default for PortIdSet<K> {
    fn default() -> (r: Self)
        ensures
            r@ == Set::<K>::empty(),
    {
        PortIdSet::new()
    }
}

} // verus!
