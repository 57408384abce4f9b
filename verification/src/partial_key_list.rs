//! The partial keys that one round has collected: at most one per
//! contributor, kept in the order of the contributors' addresses.

use vstd::prelude::*;
use crate::address::Address;
use crate::address_map::{as_map, ascending, AddressMap};
use crate::key::PartialKey;

verus! {

/// The partial keys of one round, one per contributor.
#[derive(Debug, PartialEq, Eq)]
pub struct PartialKeyList {
    keys: AddressMap<PartialKey>,
}

impl PartialKeyList {
    /// The entries in the order of their contributors.
    pub closed spec fn entries(&self) -> Seq<(Address, PartialKey)> {
        self.keys.entries()
    }

    /// The contributors ascend, so that none occurs twice.
    pub open spec fn wf(&self) -> bool {
        ascending(self.entries())
    }

    /// The list as a mapping from contributor to partial key.
    pub open spec fn view(&self) -> Map<Address, PartialKey> {
        as_map(self.entries())
    }

    /// The partial keys alone, in the order of their contributors: what the
    /// combining step is given.
    pub open spec fn keys_in_order(&self) -> Seq<PartialKey> {
        Seq::new(self.entries().len(), |i: int| self.entries()[i].1)
    }

    /// A list without contributions.
    pub fn new() -> (r: PartialKeyList)
        ensures
            r.wf(),
            r.entries() == Seq::<(Address, PartialKey)>::empty(),
            r@ == Map::<Address, PartialKey>::empty(),
    {
        PartialKeyList { keys: AddressMap::new() }
    }

    /// The number of contributors.
    pub fn len(&self) -> (n: usize)
        ensures
            n == self.entries().len(),
    {
        self.keys.len()
    }

    /// The partial key of `address`, where it has contributed.
    pub fn get(&self, address: &Address) -> (r: Option<PartialKey>)
        requires
            self.wf(),
        ensures
            r == (if self@.contains_key(*address) {
                Some(self@[*address])
            } else {
                None
            }),
    {
        match self.keys.get(address) {
            Some(partial_key) => Some(partial_key.clone()),
            None => None,
        }
    }

    /// Records the partial key of `address`, in place of an earlier one of
    /// the same contributor.
    pub fn insert(&mut self, address: Address, partial_key: PartialKey)
        requires
            old(self).wf(),
        ensures
            final(self).wf(),
            final(self)@ == old(self)@.insert(address, partial_key),
    {
        self.keys.insert(address, partial_key);
    }

    /// Drops the contribution of `address`, if there is one.
    pub fn remove(&mut self, address: Address)
        requires
            old(self).wf(),
        ensures
            final(self).wf(),
            final(self)@ == old(self)@.remove(address),
    {
        self.keys.remove(address);
    }

    /// The contributors with their partial keys, in the order of the
    /// contributors.
    pub fn iter(&self) -> (r: Vec<(Address, PartialKey)>)
        ensures
            r@ == self.entries(),
    {
        let mut out: Vec<(Address, PartialKey)> = Vec::new();
        let mut i: usize = 0;
        while i < self.keys.len()
            invariant
                i <= self.entries().len(),
                out@ == self.entries().subrange(0, i as int),
            decreases self.entries().len() - i,
        {
            let entry = self.keys.entry(i);
            out.push((entry.0, entry.1.clone()));
            i += 1;
            proof {
                assert(out@ =~= self.entries().subrange(0, i as int));
            }
        }
        proof {
            assert(out@ =~= self.entries());
        }
        out
    }

    /// The partial keys in the order of their contributors.
    pub fn to_vec(&self) -> (r: Vec<PartialKey>)
        ensures
            r@ == self.keys_in_order(),
    {
        let mut out: Vec<PartialKey> = Vec::new();
        let mut i: usize = 0;
        while i < self.keys.len()
            invariant
                i <= self.entries().len(),
                out@ == self.keys_in_order().subrange(0, i as int),
            decreases self.entries().len() - i,
        {
            out.push(self.keys.entry(i).1.clone());
            i += 1;
            proof {
                assert(out@ =~= self.keys_in_order().subrange(0, i as int));
            }
        }
        proof {
            assert(out@ =~= self.keys_in_order());
        }
        out
    }
}

impl Default for PartialKeyList {
    fn default() -> (r: Self)
        ensures
            r.wf(),
            r@ == Map::<Address, PartialKey>::empty(),
    {
        PartialKeyList::new()
    }
}

impl Clone for PartialKeyList {
    fn clone(&self) -> (r: Self)
        ensures
            r.entries() == self.entries(),
    {
        let entries = self.iter();
        let mut keys: AddressMap<PartialKey> = AddressMap::new();
        let mut i: usize = 0;
        while i < entries.len()
            invariant
                entries@ == self.entries(),
                i <= entries@.len(),
                keys.entries() == entries@.subrange(0, i as int),
            decreases entries.len() - i,
        {
            keys.push_last(entries[i].0, entries[i].1.clone());
            i += 1;
            proof {
                assert(keys.entries() =~= entries@.subrange(0, i as int));
            }
        }
        proof {
            assert(entries@.subrange(0, i as int) =~= entries@);
        }
        PartialKeyList { keys }
    }
}

} // verus!
