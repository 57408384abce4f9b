//! The two calls that the members of a cluster make to one another: the
//! request to generate a partial key for a round, and the delivery of one
//! member's partial key to all.

use vstd::prelude::*;
use crate::address::Address;
use crate::key::{KeyId, PartialKey, PartialKeyProof};
use crate::key_generator::{KeyGenerator, KeyGeneratorAddressList};
use crate::store::{
    KeyGeneratorAddressListModel, KeyGeneratorModel, KvStore, KvStoreError, KvStoreView,
    PartialKeyListModel,
};

verus! {

/// Why a call was refused.
#[derive(Clone, Copy, Debug, PartialEq, Eq, Structural)]
pub enum RpcError {
    /// The proof that came with a partial key does not hold.
    InvalidPartialKeyProof,
    /// The store could not serve the call.
    KvStore(KvStoreError),
}

/// Whether each of the first `n` listed addresses has a record.
pub open spec fn all_known(v: KvStoreView, n: int) -> bool {
    forall|i: int| 0 <= i < n ==> (#[trigger] v.key_generator(v.addresses()[i])) is Some
}

/// The members of the cluster, in the order of the address list: known where
/// the list was put and each listed address has a record.
pub open spec fn members(v: KvStoreView) -> Option<Seq<KeyGenerator>> {
    if v.address_list is Some && all_known(v, v.addresses().len() as int) {
        Some(
            Seq::new(
                v.addresses().len(),
                |i: int| v.key_generator(v.addresses()[i]).unwrap(),
            ),
        )
    } else {
        None
    }
}

/// The members other than `own`, in their order.
pub open spec fn peers(members: Seq<KeyGenerator>, own: Address) -> Seq<KeyGenerator>
    decreases members.len(),
{
    if members.len() == 0 {
        members
    } else if members.last().address == own {
        peers(members.drop_last(), own)
    } else {
        peers(members.drop_last(), own).push(members.last())
    }
}

/// The cluster endpoints of `members`, one for each, in their order.
pub open spec fn rpc_urls(members: Seq<KeyGenerator>) -> Seq<String> {
    Seq::new(members.len(), |i: int| members[i].cluster_rpc_url)
}

/// The members of the cluster.
#[derive(Debug, PartialEq, Eq)]
pub struct KeyGeneratorList {
    pub key_generators: Vec<KeyGenerator>,
}

impl KeyGeneratorList {
    pub open spec fn view(&self) -> Seq<KeyGenerator> {
        self.key_generators@
    }

    /// Reads the members from the store. Fails where no address list was put
    /// or a listed address has no record.
    pub fn get(store: &KvStore) -> (r: Result<KeyGeneratorList, KvStoreError>)
        requires
            store.wf(),
        ensures
            match r {
                Ok(list) => members(store@) == Some(list@),
                Err(e) => e == KvStoreError::NotFound && members(store@) is None,
            },
    {
        let addresses: KeyGeneratorAddressList = match KeyGeneratorAddressListModel::get(store) {
            Ok(list) => list,
            Err(e) => {
                return Err(e);
            },
        };
        let mut out: Vec<KeyGenerator> = Vec::new();
        let mut i: usize = 0;
        while i < addresses.addresses.len()
            invariant
                store.wf(),
                store@.address_list == Some(addresses@),
                i <= addresses@.len(),
                out@.len() == i,
                all_known(store@, i as int),
                forall|j: int|
                    0 <= j < i ==> store@.key_generator(addresses@[j]) == Some(#[trigger] out@[j]),
            decreases addresses.addresses.len() - i,
        {
            match KeyGeneratorModel::get(store, &addresses.addresses[i]) {
                Ok(key_generator) => {
                    out.push(key_generator);
                },
                Err(e) => {
                    proof {
                        assert(store@.key_generator(store@.addresses()[i as int]) is None);
                    }
                    return Err(e);
                },
            }
            i += 1;
        }
        proof {
            assert(members(store@).unwrap() =~= out@);
        }
        Ok(KeyGeneratorList { key_generators: out })
    }

    /// The members other than the node `own` itself, in the members' order.
    pub fn peers(&self, own: &Address) -> (r: KeyGeneratorList)
        ensures
            r@ == peers(self@, *own),
    {
        let mut out: Vec<KeyGenerator> = Vec::new();
        let mut i: usize = 0;
        while i < self.key_generators.len()
            invariant
                i <= self@.len(),
                out@ == peers(self@.subrange(0, i as int), *own),
            decreases self.key_generators.len() - i,
        {
            proof {
                let next = self@.subrange(0, i + 1);
                assert(next.drop_last() =~= self@.subrange(0, i as int));
                assert(next.last() == self@[i as int]);
            }
            if !(self.key_generators[i].address == *own) {
                out.push(self.key_generators[i].clone());
            }
            i += 1;
        }
        proof {
            assert(self@.subrange(0, i as int) =~= self@);
        }
        KeyGeneratorList { key_generators: out }
    }

    /// The cluster endpoint of each member, in the members' order.
    pub fn get_all_key_generator_rpc_url_list(&self) -> (r: Vec<String>)
        ensures
            r@ == rpc_urls(self@),
    {
        let mut out: Vec<String> = Vec::new();
        let mut i: usize = 0;
        while i < self.key_generators.len()
            invariant
                i <= self@.len(),
                out@ == rpc_urls(self@).subrange(0, i as int),
            decreases self.key_generators.len() - i,
        {
            out.push(self.key_generators[i].cluster_rpc_url.clone());
            i += 1;
            proof {
                assert(out@ =~= rpc_urls(self@).subrange(0, i as int));
            }
        }
        proof {
            assert(out@ =~= rpc_urls(self@));
        }
        out
    }
}

/// Asks a member to generate its partial key for a round.
#[derive(Clone, Copy, Debug, PartialEq, Eq, Structural)]
pub struct RunGeneratePartialKey {
    pub key_id: KeyId,
}

/// One member's partial key for a round, with its proof.
#[derive(Debug, PartialEq, Eq)]
pub struct SyncPartialKey {
    pub address: Address,
    pub key_id: KeyId,
    pub skde_partial_key: PartialKey,
    pub partial_key_proof: PartialKeyProof,
}

/// A delivery to many endpoints at once: each endpoint is sent the same
/// parameter, whatever becomes of the others.
#[derive(Debug, PartialEq, Eq)]
pub struct Multicast {
    pub rpc_url_list: Vec<String>,
    pub parameter: SyncPartialKey,
}

/// The store after it has accepted a partial key of `address` for the round
/// `key_id`: that round has the key and its proof under that contributor, in
/// place of earlier ones, and every other record is as before.
pub open spec fn synced(
    v: KvStoreView,
    key_id: u64,
    address: Address,
    partial_key: PartialKey,
    partial_key_proof: PartialKeyProof,
) -> KvStoreView {
    v.contributed(key_id, address, partial_key, partial_key_proof)
}

/// The store after the same partial key was accepted `n` times more.
pub open spec fn synced_times(
    v: KvStoreView,
    key_id: u64,
    address: Address,
    partial_key: PartialKey,
    partial_key_proof: PartialKeyProof,
    n: nat,
) -> KvStoreView
    decreases n,
{
    if n == 0 {
        v
    } else {
        synced(
            synced_times(v, key_id, address, partial_key, partial_key_proof, (n - 1) as nat),
            key_id,
            address,
            partial_key,
            partial_key_proof,
        )
    }
}

/// Delivering the same partial key and proof of the same contributor for the
/// same round any number of times leaves the store as delivering it once
/// does.
pub proof fn lemma_sync_idempotent(
    v: KvStoreView,
    key_id: u64,
    address: Address,
    partial_key: PartialKey,
    partial_key_proof: PartialKeyProof,
    n: nat,
)
    requires
        n >= 1,
    ensures
        synced_times(v, key_id, address, partial_key, partial_key_proof, n) == synced(
            v,
            key_id,
            address,
            partial_key,
            partial_key_proof,
        ),
    decreases n,
{
    let once = synced(v, key_id, address, partial_key, partial_key_proof);
    if n == 1 {
        assert(synced_times(v, key_id, address, partial_key, partial_key_proof, 0) == v);
    } else {
        lemma_sync_idempotent(v, key_id, address, partial_key, partial_key_proof, (n - 1) as nat);
        let twice = synced(once, key_id, address, partial_key, partial_key_proof);
        assert(twice.partial_keys_of(key_id) =~= once.partial_keys_of(key_id));
        assert(twice.partial_keys =~= once.partial_keys);
        assert(twice.partial_key_proofs_of(key_id) =~= once.partial_key_proofs_of(key_id));
        assert(twice.partial_key_proofs =~= once.partial_key_proofs);
    }
}

/// Of two partial keys that one contributor delivers for one round, the store
/// holds the second only: it is as if the first had never come.
pub proof fn lemma_sync_last_write_wins(
    v: KvStoreView,
    key_id: u64,
    address: Address,
    first: PartialKey,
    first_proof: PartialKeyProof,
    second: PartialKey,
    second_proof: PartialKeyProof,
)
    ensures
        synced(synced(v, key_id, address, first, first_proof), key_id, address, second, second_proof)
            == synced(v, key_id, address, second, second_proof),
        synced(v, key_id, address, second, second_proof).partial_keys_of(key_id)[address]
            == second,
        synced(v, key_id, address, second, second_proof).partial_key_proofs_of(key_id)[address]
            == second_proof,
{
    let once = synced(v, key_id, address, first, first_proof);
    let twice = synced(once, key_id, address, second, second_proof);
    let only = synced(v, key_id, address, second, second_proof);
    assert(twice.partial_keys_of(key_id) =~= only.partial_keys_of(key_id));
    assert(twice.partial_keys =~= only.partial_keys);
    assert(twice.partial_key_proofs_of(key_id) =~= only.partial_key_proofs_of(key_id));
    assert(twice.partial_key_proofs =~= only.partial_key_proofs);
}

impl RunGeneratePartialKey {
    pub const METHOD_NAME: &'static str = "run_generate_partial_key";

    /// Answers the request to generate a partial key for a round: the node's
    /// freshly generated key and proof go to every member of the cluster.
    pub fn handler(
        parameter: &RunGeneratePartialKey,
        store: &KvStore,
        address: Address,
        partial_key: PartialKey,
        partial_key_proof: PartialKeyProof,
    ) -> (r: Result<Multicast, RpcError>)
        requires
            store.wf(),
        ensures
            match r {
                Ok(multicast) => {
                    &&& members(store@) is Some
                    &&& multicast.rpc_url_list@ == rpc_urls(members(store@).unwrap())
                    &&& multicast.parameter == (SyncPartialKey {
                        address,
                        key_id: parameter.key_id,
                        skde_partial_key: partial_key,
                        partial_key_proof,
                    })
                },
                Err(e) => e == RpcError::KvStore(KvStoreError::NotFound) && members(store@)
                    is None,
            },
    {
        match sync_partial_key(store, address, parameter.key_id, partial_key, partial_key_proof) {
            Ok(multicast) => Ok(multicast),
            Err(e) => Err(RpcError::KvStore(e)),
        }
    }
}

impl SyncPartialKey {
    pub const METHOD_NAME: &'static str = "sync_partial_key";

    /// Takes in a partial key that a member has delivered. It is recorded
    /// under its contributor where its proof was found to hold, and dropped
    /// where not.
    pub fn handler(parameter: &SyncPartialKey, proof_holds: bool, store: &mut KvStore) -> (r:
        Result<(), RpcError>)
        requires
            old(store).wf(),
        ensures
            final(store).wf(),
            proof_holds ==> r is Ok && final(store)@ == synced(
                old(store)@,
                parameter.key_id,
                parameter.address,
                parameter.skde_partial_key,
                parameter.partial_key_proof,
            ),
            !proof_holds ==> r == Err::<(), RpcError>(RpcError::InvalidPartialKeyProof)
                && final(store)@ == old(store)@,
    {
        if !proof_holds {
            return Err(RpcError::InvalidPartialKeyProof);
        }
        let _ = PartialKeyListModel::insert(
            store,
            parameter.key_id,
            parameter.address,
            parameter.skde_partial_key.clone(),
            parameter.partial_key_proof.clone(),
        );
        Ok(())
    }
}

/// Prepares the delivery of a partial key to every member of the cluster.
/// Fails where the members are not known.
pub fn sync_partial_key(
    store: &KvStore,
    address: Address,
    key_id: KeyId,
    partial_key: PartialKey,
    partial_key_proof: PartialKeyProof,
) -> (r: Result<Multicast, KvStoreError>)
    requires
        store.wf(),
    ensures
        match r {
            Ok(multicast) => {
                &&& members(store@) is Some
                &&& multicast.rpc_url_list@ == rpc_urls(members(store@).unwrap())
                &&& multicast.parameter == (SyncPartialKey {
                    address,
                    key_id,
                    skde_partial_key: partial_key,
                    partial_key_proof,
                })
            },
            Err(e) => e == KvStoreError::NotFound && members(store@) is None,
        },
{
    let all_key_generator_rpc_url_list = match KeyGeneratorList::get(store) {
        Ok(list) => list.get_all_key_generator_rpc_url_list(),
        Err(e) => {
            return Err(e);
        },
    };
    let parameter = SyncPartialKey {
        address,
        key_id,
        skde_partial_key: partial_key,
        partial_key_proof,
    };
    Ok(Multicast { rpc_url_list: all_key_generator_rpc_url_list, parameter })
}

} // verus!
