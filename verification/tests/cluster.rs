use key_generator::address::Address;
use key_generator::cluster::{
    sync_partial_key, KeyGeneratorList, Multicast, RpcError, RunGeneratePartialKey, SyncPartialKey,
};
use key_generator::key::{PartialKey, PartialKeyProof};
use key_generator::key_generator::{KeyGenerator, KeyGeneratorAddressList};
use key_generator::store::{
    KeyGeneratorAddressListModel, KeyGeneratorModel, KvStore, KvStoreError, PartialKeyListModel,
    PartialKeyProofModel,
};

fn key(tag: &str) -> PartialKey {
    PartialKey { u: tag.to_string(), v: tag.to_string(), y: tag.to_string(), w: tag.to_string() }
}

fn proof_of(tag: &str) -> PartialKeyProof {
    PartialKeyProof {
        a: tag.to_string(),
        b: tag.to_string(),
        tau: tag.to_string(),
        r1: tag.to_string(),
        r2: tag.to_string(),
        z1: tag.to_string(),
        z2: tag.to_string(),
    }
}

fn url(n: u128) -> String {
    format!("http://127.0.0.1:{}", 5000 + n)
}

fn member(n: u128) -> KeyGenerator {
    KeyGenerator::new(Address::new(0, n), url(n), format!("http://127.0.0.1:{}", 3000 + n))
}

fn cluster_of(numbers: &[u128]) -> KvStore {
    let mut store = KvStore::new();
    let mut list = KeyGeneratorAddressList::new();
    for n in numbers {
        list.insert(Address::new(0, *n));
        KeyGeneratorModel::put(&mut store, &member(*n)).unwrap();
    }
    KeyGeneratorAddressListModel::put(&mut store, &list).unwrap();
    store
}

fn delivery(n: u128, key_id: u64, tag: &str) -> SyncPartialKey {
    SyncPartialKey {
        address: Address::new(0, n),
        key_id,
        skde_partial_key: key(tag),
        partial_key_proof: proof_of(tag),
    }
}

#[test]
fn method_names_are_as_on_the_wire() {
    assert_eq!(RunGeneratePartialKey::METHOD_NAME, "run_generate_partial_key");
    assert_eq!(SyncPartialKey::METHOD_NAME, "sync_partial_key");
}

#[test]
fn key_generator_list_follows_address_list() {
    let store = cluster_of(&[3, 1, 2]);
    let list = KeyGeneratorList::get(&store).unwrap();
    assert_eq!(list.key_generators, vec![member(3), member(1), member(2)]);
    assert_eq!(list.get_all_key_generator_rpc_url_list(), vec![url(3), url(1), url(2)]);
}

#[test]
fn key_generator_list_fails_without_address_list() {
    let store = KvStore::new();
    assert_eq!(KeyGeneratorList::get(&store), Err(KvStoreError::NotFound));
}

#[test]
fn key_generator_list_fails_on_unknown_member() {
    let mut store = cluster_of(&[1, 2]);
    let mut list = KeyGeneratorAddressListModel::get(&store).unwrap();
    list.insert(Address::new(0, 9));
    KeyGeneratorAddressListModel::put(&mut store, &list).unwrap();
    assert_eq!(KeyGeneratorList::get(&store), Err(KvStoreError::NotFound));
}

#[test]
fn sync_partial_key_goes_to_every_member() {
    let store = cluster_of(&[1, 2, 3, 4]);
    let multicast =
        sync_partial_key(&store, Address::new(0, 1), 5, key("k"), proof_of("p")).unwrap();
    assert_eq!(
        multicast,
        Multicast {
            rpc_url_list: vec![url(1), url(2), url(3), url(4)],
            parameter: SyncPartialKey {
                address: Address::new(0, 1),
                key_id: 5,
                skde_partial_key: key("k"),
                partial_key_proof: proof_of("p"),
            },
        }
    );
}

#[test]
fn sync_partial_key_fails_without_members() {
    let store = KvStore::new();
    assert_eq!(
        sync_partial_key(&store, Address::new(0, 1), 5, key("k"), proof_of("p")),
        Err(KvStoreError::NotFound)
    );
}

#[test]
fn run_generate_partial_key_handler_broadcasts_own_key() {
    let store = cluster_of(&[1, 2]);
    let parameter = RunGeneratePartialKey { key_id: 8 };
    let multicast = RunGeneratePartialKey::handler(
        &parameter,
        &store,
        Address::new(0, 2),
        key("mine"),
        proof_of("mine"),
    )
    .unwrap();
    assert_eq!(multicast.rpc_url_list, vec![url(1), url(2)]);
    assert_eq!(multicast.parameter, delivery(2, 8, "mine"));
    assert_eq!(
        RunGeneratePartialKey::handler(
            &parameter,
            &KvStore::new(),
            Address::new(0, 2),
            key("mine"),
            proof_of("mine"),
        ),
        Err(RpcError::KvStore(KvStoreError::NotFound))
    );
}

#[test]
fn sync_handler_records_contribution() {
    let mut store = KvStore::new();
    assert_eq!(SyncPartialKey::handler(&delivery(2, 1, "b"), true, &mut store), Ok(()));
    assert_eq!(SyncPartialKey::handler(&delivery(1, 1, "a"), true, &mut store), Ok(()));
    let list = PartialKeyListModel::get_or_default(&store, 1).unwrap();
    assert_eq!(list.iter(), vec![(Address::new(0, 1), key("a")), (Address::new(0, 2), key("b"))]);
    assert_eq!(PartialKeyProofModel::get(&store, 1, &Address::new(0, 1)), Ok(proof_of("a")));
    assert_eq!(PartialKeyProofModel::get(&store, 1, &Address::new(0, 2)), Ok(proof_of("b")));
    assert_eq!(
        PartialKeyProofModel::get(&store, 1, &Address::new(0, 3)),
        Err(KvStoreError::NotFound)
    );
    assert_eq!(
        PartialKeyProofModel::get(&store, 2, &Address::new(0, 1)),
        Err(KvStoreError::NotFound)
    );
}

#[test]
fn sync_handler_drops_contribution_with_invalid_proof() {
    let mut store = KvStore::new();
    assert_eq!(
        SyncPartialKey::handler(&delivery(2, 1, "b"), false, &mut store),
        Err(RpcError::InvalidPartialKeyProof)
    );
    assert_eq!(PartialKeyListModel::get_or_default(&store, 1).unwrap().len(), 0);
    assert_eq!(
        PartialKeyProofModel::get(&store, 1, &Address::new(0, 2)),
        Err(KvStoreError::NotFound)
    );
}

#[test]
fn sync_handler_is_idempotent() {
    let mut once = KvStore::new();
    SyncPartialKey::handler(&delivery(1, 1, "a"), true, &mut once).unwrap();
    let mut many = KvStore::new();
    for _ in 0..5 {
        SyncPartialKey::handler(&delivery(1, 1, "a"), true, &mut many).unwrap();
    }
    assert_eq!(
        PartialKeyListModel::get_or_default(&once, 1).unwrap(),
        PartialKeyListModel::get_or_default(&many, 1).unwrap()
    );
    assert_eq!(PartialKeyListModel::get_or_default(&many, 1).unwrap().len(), 1);
}

#[test]
fn sync_handler_keeps_last_key_of_contributor() {
    let mut store = KvStore::new();
    SyncPartialKey::handler(&delivery(1, 1, "first"), true, &mut store).unwrap();
    SyncPartialKey::handler(&delivery(1, 1, "second"), true, &mut store).unwrap();
    let list = PartialKeyListModel::get_or_default(&store, 1).unwrap();
    assert_eq!(list.to_vec(), vec![key("second")]);
    assert_eq!(PartialKeyProofModel::get(&store, 1, &Address::new(0, 1)), Ok(proof_of("second")));
}
