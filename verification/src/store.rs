//! The state that outlives a round: the round counter, what each round has
//! collected and produced, and the membership of the cluster. Every record is
//! addressed by a key, and each write touches one record.

use vstd::prelude::*;
use std::collections::BTreeMap;
use crate::address::Address;
use crate::address_map::AddressMap;
use crate::key::{AggregatedKey, DecryptionKey, PartialKey, PartialKeyProof};
use crate::key_generator::{KeyGenerator, KeyGeneratorAddressList};
use crate::partial_key_list::PartialKeyList;

verus! {

/// Why the store could not serve a request.
#[derive(Clone, Copy, Debug, PartialEq, Eq, Structural)]
pub enum KvStoreError {
    /// No record stands under the key.
    NotFound,
    /// A decryption key was offered for a round that has no aggregated key.
    MissingAggregatedKey,
    /// The round counter has reached the largest number it can hold.
    KeyIdExhausted,
}

/// What the store holds, record by record.
pub struct KvStoreView {
    pub key_id: Option<u64>,
    pub partial_keys: Map<u64, Map<Address, PartialKey>>,
    pub partial_key_proofs: Map<u64, Map<Address, PartialKeyProof>>,
    pub aggregated_keys: Map<u64, AggregatedKey>,
    pub decryption_keys: Map<u64, DecryptionKey>,
    pub address_list: Option<Seq<Address>>,
    pub key_generators: Map<Address, KeyGenerator>,
}

impl KvStoreView {
    /// The round that the next trigger starts: zero until one was recorded.
    pub open spec fn current_key_id(self) -> u64 {
        match self.key_id {
            Some(id) => id,
            None => 0,
        }
    }

    /// The store after one more round was handed out.
    pub open spec fn advanced(self) -> KvStoreView {
        KvStoreView { key_id: Some((self.current_key_id() + 1) as u64), ..self }
    }

    /// The contributions of a round; none where nothing was recorded yet.
    pub open spec fn partial_keys_of(self, key_id: u64) -> Map<Address, PartialKey> {
        if self.partial_keys.contains_key(key_id) {
            self.partial_keys[key_id]
        } else {
            Map::empty()
        }
    }

    /// The proofs that came with the contributions of a round.
    pub open spec fn partial_key_proofs_of(self, key_id: u64) -> Map<Address, PartialKeyProof> {
        if self.partial_key_proofs.contains_key(key_id) {
            self.partial_key_proofs[key_id]
        } else {
            Map::empty()
        }
    }

    /// The store after the round `key_id` has taken in a contribution of
    /// `address`: the round has the key and its proof under that contributor,
    /// in place of earlier ones, and every other record is as before.
    pub open spec fn contributed(
        self,
        key_id: u64,
        address: Address,
        partial_key: PartialKey,
        partial_key_proof: PartialKeyProof,
    ) -> KvStoreView {
        KvStoreView {
            partial_keys: self.partial_keys.insert(
                key_id,
                self.partial_keys_of(key_id).insert(address, partial_key),
            ),
            partial_key_proofs: self.partial_key_proofs.insert(
                key_id,
                self.partial_key_proofs_of(key_id).insert(address, partial_key_proof),
            ),
            ..self
        }
    }

    /// The record of the key generator `address`, where one was put.
    pub open spec fn key_generator(self, address: Address) -> Option<KeyGenerator> {
        if self.key_generators.contains_key(address) {
            Some(self.key_generators[address])
        } else {
            None
        }
    }

    /// The addresses of the members; none where no list was put.
    pub open spec fn addresses(self) -> Seq<Address> {
        match self.address_list {
            Some(l) => l,
            None => Seq::empty(),
        }
    }
}

/// The store itself.
pub struct KvStore {
    key_id: Option<u64>,
    partial_key_lists: BTreeMap<u64, PartialKeyList>,
    partial_key_proofs: BTreeMap<u64, AddressMap<PartialKeyProof>>,
    aggregated_keys: BTreeMap<u64, AggregatedKey>,
    decryption_keys: BTreeMap<u64, DecryptionKey>,
    address_list: Option<KeyGeneratorAddressList>,
    key_generators: AddressMap<KeyGenerator>,
}

impl KvStore {
    pub closed spec fn view(&self) -> KvStoreView {
        KvStoreView {
            key_id: self.key_id,
            partial_keys: self.partial_key_lists@.map_values(|l: PartialKeyList| l@),
            partial_key_proofs: self.partial_key_proofs@.map_values(
                |l: AddressMap<PartialKeyProof>| l@,
            ),
            aggregated_keys: self.aggregated_keys@,
            decryption_keys: self.decryption_keys@,
            address_list: match self.address_list {
                Some(l) => Some(l.addresses@),
                None => None,
            },
            key_generators: self.key_generators@,
        }
    }

    /// Each round's list holds a contributor once, as does the list of
    /// members; a round holds a proof for each contributor whose key it
    /// holds, and for no other; and a round with a decryption key has an
    /// aggregated key.
    pub closed spec fn wf(&self) -> bool {
        &&& forall|id: u64| #[trigger]
            self.partial_key_lists@.contains_key(id) <==> self.partial_key_proofs@.contains_key(id)
        &&& forall|id: u64| #[trigger]
            self.partial_key_lists@.contains_key(id) ==> self.partial_key_lists@[id]@.dom()
                == self.partial_key_proofs@[id]@.dom()
        &&& forall|id: u64| #[trigger]
            self.partial_key_lists@.contains_key(id) ==> self.partial_key_lists@[id].wf()
        &&& forall|id: u64| #[trigger]
            self.partial_key_proofs@.contains_key(id) ==> self.partial_key_proofs@[id].wf()
        &&& self.key_generators.wf()
        &&& forall|id: u64| #[trigger]
            self.decryption_keys@.contains_key(id) ==> self.aggregated_keys@.contains_key(id)
    }

    /// A store without records.
    pub fn new() -> (r: KvStore)
        ensures
            r.wf(),
            r@.key_id is None,
            r@.partial_keys == Map::<u64, Map<Address, PartialKey>>::empty(),
            r@.partial_key_proofs == Map::<u64, Map<Address, PartialKeyProof>>::empty(),
            r@.aggregated_keys == Map::<u64, AggregatedKey>::empty(),
            r@.decryption_keys == Map::<u64, DecryptionKey>::empty(),
            r@.address_list is None,
            r@.key_generators == Map::<Address, KeyGenerator>::empty(),
    {
        let r = KvStore {
            key_id: None,
            partial_key_lists: BTreeMap::new(),
            partial_key_proofs: BTreeMap::new(),
            aggregated_keys: BTreeMap::new(),
            decryption_keys: BTreeMap::new(),
            address_list: None,
            key_generators: AddressMap::new(),
        };
        proof {
            assert(r@.partial_keys =~= Map::<u64, Map<Address, PartialKey>>::empty());
            assert(r@.partial_key_proofs =~= Map::<u64, Map<Address, PartialKeyProof>>::empty());
        }
        r
    }

    /// A contribution is held whole: a round holds the key of a contributor
    /// exactly where it holds that contributor's proof.
    pub proof fn lemma_contribution_is_whole(&self, key_id: u64, address: Address)
        requires
            self.wf(),
        ensures
            self@.partial_keys_of(key_id).contains_key(address) <==> self@.partial_key_proofs_of(
                key_id,
            ).contains_key(address),
    {
        if self.partial_key_lists@.contains_key(key_id) {
            assert(self.partial_key_proofs@.contains_key(key_id));
            assert(self.partial_key_lists@[key_id]@.dom().contains(address)
                <==> self.partial_key_proofs@[key_id]@.dom().contains(address));
        } else {
            assert(!self.partial_key_proofs@.contains_key(key_id));
        }
    }

    /// No round holds a decryption key without an aggregated key.
    pub proof fn lemma_no_premature_derivation(&self, key_id: u64)
        requires
            self.wf(),
            self@.decryption_keys.contains_key(key_id),
        ensures
            self@.aggregated_keys.contains_key(key_id),
    {
    }
}

/// The round counter.
pub struct KeyIdModel;

impl KeyIdModel {
    /// The round that the next trigger starts: zero until one was recorded.
    pub fn get_or_default(store: &KvStore) -> (r: Result<u64, KvStoreError>)
        ensures
            r == Ok::<u64, KvStoreError>(store@.current_key_id()),
    {
        match store.key_id {
            Some(id) => Ok(id),
            None => Ok(0),
        }
    }

    /// Records the round that the next trigger starts.
    pub fn put(store: &mut KvStore, key_id: u64) -> (r: Result<(), KvStoreError>)
        requires
            old(store).wf(),
        ensures
            r is Ok,
            final(store).wf(),
            final(store)@ == (KvStoreView { key_id: Some(key_id), ..old(store)@ }),
    {
        store.key_id = Some(key_id);
        Ok(())
    }

    /// Hands out the current round and moves the counter on by one. At the
    /// largest number the counter stays, and no round is handed out.
    pub fn take(store: &mut KvStore) -> (r: Result<u64, KvStoreError>)
        requires
            old(store).wf(),
        ensures
            final(store).wf(),
            match r {
                Ok(id) => {
                    &&& id == old(store)@.current_key_id()
                    &&& id < u64::MAX
                    &&& final(store)@ == old(store)@.advanced()
                },
                Err(e) => {
                    &&& e == KvStoreError::KeyIdExhausted
                    &&& old(store)@.current_key_id() == u64::MAX
                    &&& final(store)@ == old(store)@
                },
            },
    {
        let id: u64 = match store.key_id {
            Some(id) => id,
            None => 0,
        };
        if id == u64::MAX {
            return Err(KvStoreError::KeyIdExhausted);
        }
        store.key_id = Some(id + 1);
        Ok(id)
    }
}

/// The contributions of each round.
pub struct PartialKeyListModel;

impl PartialKeyListModel {
    /// The contributions of a round; an empty list where none was recorded.
    pub fn get_or_default(store: &KvStore, key_id: u64) -> (r: Result<PartialKeyList, KvStoreError>)
        requires
            store.wf(),
        ensures
            r is Ok,
            r.unwrap().wf(),
            r.unwrap()@ == store@.partial_keys_of(key_id),
    {
        match store.partial_key_lists.get(&key_id) {
            Some(list) => Ok(list.clone()),
            None => Ok(PartialKeyList::new()),
        }
    }

    /// Records one contribution to a round, the key together with its proof,
    /// in place of an earlier one of the same contributor, and leaves every
    /// other record as it was.
    pub fn insert(
        store: &mut KvStore,
        key_id: u64,
        address: Address,
        partial_key: PartialKey,
        partial_key_proof: PartialKeyProof,
    ) -> (r: Result<(), KvStoreError>)
        requires
            old(store).wf(),
        ensures
            r is Ok,
            final(store).wf(),
            final(store)@ == old(store)@.contributed(
                key_id,
                address,
                partial_key,
                partial_key_proof,
            ),
    {
        let mut list = match store.partial_key_lists.remove(&key_id) {
            Some(list) => list,
            None => PartialKeyList::new(),
        };
        let mut proofs = match store.partial_key_proofs.remove(&key_id) {
            Some(proofs) => proofs,
            None => AddressMap::new(),
        };
        list.insert(address, partial_key);
        proofs.insert(address, partial_key_proof);
        proof {
            assert(list@.dom() =~= proofs@.dom());
        }
        let _ = store.partial_key_lists.insert(key_id, list);
        let _ = store.partial_key_proofs.insert(key_id, proofs);
        proof {
            let after = old(store)@.contributed(key_id, address, partial_key, partial_key_proof);
            assert(final(store)@.partial_keys =~= after.partial_keys);
            assert(final(store)@.partial_key_proofs =~= after.partial_key_proofs);
        }
        Ok(())
    }
}

/// The aggregated key of each round.
pub struct AggregatedKeyModel;

impl AggregatedKeyModel {
    /// The aggregated key of a round, where one was recorded.
    pub fn get(store: &KvStore, key_id: u64) -> (r: Result<AggregatedKey, KvStoreError>)
        ensures
            match r {
                Ok(key) => store@.aggregated_keys.contains_key(key_id)
                    && key == store@.aggregated_keys[key_id],
                Err(e) => e == KvStoreError::NotFound && !store@.aggregated_keys.contains_key(
                    key_id,
                ),
            },
    {
        match store.aggregated_keys.get(&key_id) {
            Some(key) => Ok(key.clone()),
            None => Err(KvStoreError::NotFound),
        }
    }

    /// Records the aggregated key of a round.
    pub fn put(store: &mut KvStore, key_id: u64, aggregated_key: &AggregatedKey) -> (r: Result<
        (),
        KvStoreError,
    >)
        requires
            old(store).wf(),
        ensures
            r is Ok,
            final(store).wf(),
            final(store)@ == (KvStoreView {
                aggregated_keys: old(store)@.aggregated_keys.insert(key_id, *aggregated_key),
                ..old(store)@
            }),
    {
        let _ = store.aggregated_keys.insert(key_id, aggregated_key.clone());
        Ok(())
    }
}

/// The decryption key of each round.
pub struct DecryptionKeyModel;

impl DecryptionKeyModel {
    /// The decryption key of a round, where one was recorded.
    pub fn get(store: &KvStore, key_id: u64) -> (r: Result<DecryptionKey, KvStoreError>)
        ensures
            match r {
                Ok(key) => store@.decryption_keys.contains_key(key_id)
                    && key == store@.decryption_keys[key_id],
                Err(e) => e == KvStoreError::NotFound && !store@.decryption_keys.contains_key(
                    key_id,
                ),
            },
    {
        match store.decryption_keys.get(&key_id) {
            Some(key) => Ok(key.clone()),
            None => Err(KvStoreError::NotFound),
        }
    }

    /// Records the decryption key of a round that has its aggregated key. A
    /// round without one is refused, and the store stays as it was.
    pub fn put(store: &mut KvStore, key_id: u64, decryption_key: &DecryptionKey) -> (r: Result<
        (),
        KvStoreError,
    >)
        requires
            old(store).wf(),
        ensures
            final(store).wf(),
            match r {
                Ok(_) => {
                    &&& old(store)@.aggregated_keys.contains_key(key_id)
                    &&& final(store)@ == (KvStoreView {
                        decryption_keys: old(store)@.decryption_keys.insert(
                            key_id,
                            *decryption_key,
                        ),
                        ..old(store)@
                    })
                },
                Err(e) => {
                    &&& e == KvStoreError::MissingAggregatedKey
                    &&& !old(store)@.aggregated_keys.contains_key(key_id)
                    &&& final(store)@ == old(store)@
                },
            },
    {
        if !store.aggregated_keys.contains_key(&key_id) {
            return Err(KvStoreError::MissingAggregatedKey);
        }
        let _ = store.decryption_keys.insert(key_id, decryption_key.clone());
        Ok(())
    }
}

/// The list of the members' addresses.
pub struct KeyGeneratorAddressListModel;

impl KeyGeneratorAddressListModel {
    /// The list of addresses, where one was put.
    pub fn get(store: &KvStore) -> (r: Result<KeyGeneratorAddressList, KvStoreError>)
        ensures
            match r {
                Ok(list) => store@.address_list == Some(list@),
                Err(e) => e == KvStoreError::NotFound && store@.address_list is None,
            },
    {
        match &store.address_list {
            Some(list) => Ok(list.clone()),
            None => Err(KvStoreError::NotFound),
        }
    }

    /// The list of addresses; an empty one where none was put.
    pub fn get_or_default(store: &KvStore) -> (r: Result<KeyGeneratorAddressList, KvStoreError>)
        ensures
            r is Ok,
            r.unwrap()@ == store@.addresses(),
    {
        match &store.address_list {
            Some(list) => Ok(list.clone()),
            None => Ok(KeyGeneratorAddressList::new()),
        }
    }

    /// Records the list of addresses.
    pub fn put(store: &mut KvStore, key_generator_address_list: &KeyGeneratorAddressList) -> (r:
        Result<(), KvStoreError>)
        requires
            old(store).wf(),
        ensures
            r is Ok,
            final(store).wf(),
            final(store)@ == (KvStoreView {
                address_list: Some(key_generator_address_list@),
                ..old(store)@
            }),
    {
        store.address_list = Some(key_generator_address_list.clone());
        Ok(())
    }
}

/// The record of each member.
pub struct KeyGeneratorModel;

impl KeyGeneratorModel {
    /// The record of the member `address`, where one was put.
    pub fn get(store: &KvStore, address: &Address) -> (r: Result<KeyGenerator, KvStoreError>)
        requires
            store.wf(),
        ensures
            match r {
                Ok(key_generator) => store@.key_generator(*address) == Some(key_generator),
                Err(e) => e == KvStoreError::NotFound && store@.key_generator(*address) is None,
            },
    {
        match store.key_generators.get(address) {
            Some(key_generator) => Ok(key_generator.clone()),
            None => Err(KvStoreError::NotFound),
        }
    }

    /// Records a member under its address, in place of an earlier record of
    /// the same address; the other members' records stay.
    pub fn put(store: &mut KvStore, key_generator: &KeyGenerator) -> (r: Result<(), KvStoreError>)
        requires
            old(store).wf(),
        ensures
            r is Ok,
            final(store).wf(),
            final(store)@ == (KvStoreView {
                key_generators: old(store)@.key_generators.insert(
                    key_generator.address,
                    *key_generator,
                ),
                ..old(store)@
            }),
    {
        store.key_generators.insert(key_generator.address, key_generator.clone());
        Ok(())
    }
}

/// The proofs that came with the contributions of each round.
pub struct PartialKeyProofModel;

impl PartialKeyProofModel {
    /// The proof that came with the contribution of `address` to a round.
    pub fn get(store: &KvStore, key_id: u64, address: &Address) -> (r: Result<
        PartialKeyProof,
        KvStoreError,
    >)
        requires
            store.wf(),
        ensures
            match r {
                Ok(proof) => store@.partial_key_proofs_of(key_id).contains_key(*address)
                    && store@.partial_key_proofs_of(key_id)[*address] == proof,
                Err(e) => e == KvStoreError::NotFound && !store@.partial_key_proofs_of(
                    key_id,
                ).contains_key(*address),
            },
    {
        match store.partial_key_proofs.get(&key_id) {
            Some(proofs) => match proofs.get(address) {
                Some(proof) => Ok(proof.clone()),
                None => Err(KvStoreError::NotFound),
            },
            None => Err(KvStoreError::NotFound),
        }
    }
}

} // verus!
