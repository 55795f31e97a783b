//! A small association table keyed by [`Address`], used for per-asset and
//! per-user ledger entries.

use vstd::prelude::*;
use crate::types::Address;

verus! {

/// The value stored for `k` in `s`: the last entry with key `k` wins.
pub open spec fn lookup<V>(s: Seq<(Address, V)>, k: Address) -> Option<V>
    decreases s.len(),
{
    if s.len() == 0 {
        None
    } else if s.last().0 == k {
        Some(s.last().1)
    } else {
        lookup(s.drop_last(), k)
    }
}

/// Appending an entry makes it the one that `lookup` finds for its key.
proof fn lemma_lookup_push<V>(s: Seq<(Address, V)>, k: Address, v: V, q: Address)
    ensures
        lookup(s.push((k, v)), q) == (if q == k { Some(v) } else { lookup(s, q) }),
{
    assert(s.push((k, v)).drop_last() =~= s);
}

/// Overwriting the last entry with key `k` changes the value of `k` only.
proof fn lemma_lookup_update<V>(s: Seq<(Address, V)>, i: int, k: Address, v: V, q: Address)
    requires
        0 <= i < s.len(),
        s[i].0 == k,
        forall|j: int| i < j < s.len() ==> s[j].0 != k,
    ensures
        lookup(s.update(i, (k, v)), q) == (if q == k { Some(v) } else { lookup(s, q) }),
    decreases s.len(),
{
    let t = s.update(i, (k, v));
    if i == s.len() - 1 {
        assert(t.drop_last() =~= s.drop_last());
    } else {
        assert(t.drop_last() =~= s.drop_last().update(i, (k, v)));
        lemma_lookup_update(s.drop_last(), i, k, v, q);
    }
}

/// A table from addresses to values, viewed as a finite map.
pub struct AddressTable<V> {
    entries: Vec<(Address, V)>,
}

impl<V> View for AddressTable<V> {
    type V = Map<Address, V>;

    closed spec fn view(&self) -> Map<Address, V> {
        Map::new(
            |k: Address| lookup(self.entries@, k) is Some,
            |k: Address| lookup(self.entries@, k)->0,
        )
    }
}

/// The value of `k` in `m`, or `d` where `m` has none.
pub open spec fn value_or<V>(m: Map<Address, V>, k: Address, d: V) -> V {
    if m.contains_key(k) {
        m[k]
    } else {
        d
    }
}

impl<V: Copy> AddressTable<V> {
    /// An empty table.
    pub fn new() -> (r: AddressTable<V>)
        ensures
            r@ == Map::<Address, V>::empty(),
    {
        let r = AddressTable { entries: Vec::new() };
        assert(r@ =~= Map::<Address, V>::empty());
        r
    }

    /// The value stored for `k`, if any.
    pub fn get(&self, k: Address) -> (r: Option<V>)
        ensures
            r == (if self@.contains_key(k) { Some(self@[k]) } else { None::<V> }),
    {
        match self.find(k) {
            Some(i) => Some(self.entries[i].1),
            None => None,
        }
    }

    /// The value stored for `k`, or `d` where there is none.
    pub fn get_or(&self, k: Address, d: V) -> (r: V)
        ensures
            r == value_or(self@, k, d),
    {
        match self.get(k) {
            Some(v) => v,
            None => d,
        }
    }

    /// Stores `v` for `k`, replacing any earlier value.
    pub fn set(&mut self, k: Address, v: V)
        ensures
            final(self)@ == old(self)@.insert(k, v),
    {
        let ghost s = self.entries@;
        match self.find(k) {
            Some(i) => {
                self.entries.set(i, (k, v));
                assert forall|q: Address| lookup(self.entries@, q) == (if q == k { Some(v) } else {
                    lookup(s, q)
                }) by {
                    lemma_lookup_update(s, i as int, k, v, q);
                }
            },
            None => {
                self.entries.push((k, v));
                assert forall|q: Address| lookup(self.entries@, q) == (if q == k { Some(v) } else {
                    lookup(s, q)
                }) by {
                    lemma_lookup_push(s, k, v, q);
                }
            },
        }
        assert(self@ =~= old(self)@.insert(k, v));
    }

    /// The index of the last entry with key `k`, if any.
    fn find(&self, k: Address) -> (r: Option<usize>)
        ensures
            match r {
                Some(i) => i < self.entries@.len() && self.entries@[i as int].0 == k
                    && (forall|j: int| i < j < self.entries@.len() ==> self.entries@[j].0 != k)
                    && lookup(self.entries@, k) == Some(self.entries@[i as int].1),
                None => lookup(self.entries@, k) is None,
            },
    {
        let mut i: usize = self.entries.len();
        assert(self.entries@.subrange(0, i as int) =~= self.entries@);
        while i > 0
            invariant
                i <= self.entries@.len(),
                forall|j: int| i <= j < self.entries@.len() ==> self.entries@[j].0 != k,
                lookup(self.entries@, k) == lookup(self.entries@.subrange(0, i as int), k),
            decreases i,
        {
            let ghost pre = self.entries@.subrange(0, i as int);
            assert(pre.drop_last() =~= self.entries@.subrange(0, i - 1));
            if self.entries[i - 1].0 == k {
                return Some(i - 1);
            }
            i = i - 1;
        }
        None
    }
}

} // verus!
