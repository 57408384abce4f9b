//! The members of the cluster and where to reach them.

use vstd::prelude::*;
use crate::address::Address;

verus! {

/// One member: its identity and the endpoints under which it answers.
#[derive(Debug, PartialEq, Eq)]
pub struct KeyGenerator {
    pub address: Address,
    pub cluster_rpc_url: String,
    pub external_rpc_url: String,
}

impl KeyGenerator {
    pub fn new(address: Address, cluster_rpc_url: String, external_rpc_url: String) -> (r:
        KeyGenerator)
        ensures
            r == (KeyGenerator { address, cluster_rpc_url, external_rpc_url }),
    {
        KeyGenerator { address, cluster_rpc_url, external_rpc_url }
    }

    pub fn address(&self) -> (r: Address)
        ensures
            r == self.address,
    {
        self.address
    }
}

impl Clone for KeyGenerator {
    fn clone(&self) -> (r: Self)
        ensures
            r == *self,
    {
        KeyGenerator {
            address: self.address,
            cluster_rpc_url: self.cluster_rpc_url.clone(),
            external_rpc_url: self.external_rpc_url.clone(),
        }
    }
}

/// The addresses of the members, in the order in which they were listed.
#[derive(Debug, PartialEq, Eq)]
pub struct KeyGeneratorAddressList {
    pub addresses: Vec<Address>,
}

impl KeyGeneratorAddressList {
    pub open spec fn view(&self) -> Seq<Address> {
        self.addresses@
    }

    /// A list without members.
    pub fn new() -> (r: KeyGeneratorAddressList)
        ensures
            r@ == Seq::<Address>::empty(),
    {
        KeyGeneratorAddressList { addresses: Vec::new() }
    }

    /// Whether `address` is listed.
    pub fn contains(&self, address: &Address) -> (r: bool)
        ensures
            r == self@.contains(*address),
    {
        let mut i: usize = 0;
        while i < self.addresses.len()
            invariant
                i <= self.addresses@.len(),
                forall|j: int| 0 <= j < i ==> self.addresses@[j] != *address,
            decreases self.addresses.len() - i,
        {
            if self.addresses[i] == *address {
                return true;
            }
            i += 1;
        }
        false
    }

    /// Lists `address` at the end, unless it is listed already.
    pub fn insert(&mut self, address: Address)
        ensures
            final(self)@ == (if old(self)@.contains(address) {
                old(self)@
            } else {
                old(self)@.push(address)
            }),
    {
        if !self.contains(&address) {
            self.addresses.push(address);
        }
    }
}

impl Clone for KeyGeneratorAddressList {
    fn clone(&self) -> (r: Self)
        ensures
            r@ == self@,
    {
        let mut out: Vec<Address> = Vec::new();
        let mut i: usize = 0;
        while i < self.addresses.len()
            invariant
                i <= self.addresses@.len(),
                out@ == self.addresses@.subrange(0, i as int),
            decreases self.addresses.len() - i,
        {
            out.push(self.addresses[i]);
            i += 1;
            proof {
                assert(out@ =~= self.addresses@.subrange(0, i as int));
            }
        }
        proof {
            assert(out@ =~= self.addresses@);
        }
        KeyGeneratorAddressList { addresses: out }
    }
}

} // verus!
