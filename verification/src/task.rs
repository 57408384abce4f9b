//! The cadence of the rounds: what each trigger starts, and what a round's
//! aggregation is given once its delay has passed.

use vstd::prelude::*;
use crate::address::Address;
use crate::cluster::{
    all_known, members, peers, synced, KeyGeneratorList, RunGeneratePartialKey,
};
use crate::config::Config;
use crate::key::{AggregatedKey, DecryptionKey, KeyId, PartialKey, PartialKeyProof};
use crate::key_generator::KeyGenerator;
use crate::address_map::{as_map, ascending, lemma_same_map_same_order};
use crate::partial_key_list::PartialKeyList;
use crate::store::{
    AggregatedKeyModel, DecryptionKeyModel, KeyIdModel, KvStore, KvStoreError, KvStoreView,
    PartialKeyListModel,
};

verus! {

/// The request that one member is sent when a round starts.
#[derive(Debug, PartialEq, Eq)]
pub struct GenerateRequest {
    pub address: Address,
    pub rpc_url: String,
    pub parameter: RunGeneratePartialKey,
}

/// What one trigger starts: the round, the node's own generation for it, the
/// request for each other member, and the seconds after which the round is
/// aggregated.
#[derive(Debug, PartialEq, Eq)]
pub struct RoundPlan {
    pub key_id: KeyId,
    /// The order to the node itself: it generates its partial key for the
    /// round and delivers it to every member, whatever becomes of the
    /// requests.
    pub local_generation: RunGeneratePartialKey,
    pub requests: Vec<GenerateRequest>,
    pub aggregate_after: u64,
}

/// One request for each member, in the members' order, all for the round
/// `key_id`.
pub open spec fn generate_requests(members: Seq<KeyGenerator>, key_id: u64) -> Seq<
    GenerateRequest,
> {
    Seq::new(
        members.len(),
        |i: int|
            GenerateRequest {
                address: members[i].address,
                rpc_url: members[i].cluster_rpc_url,
                parameter: RunGeneratePartialKey { key_id },
            },
    )
}

/// The contributions in `m` in the order of their contributors.
pub open spec fn in_order(m: Map<Address, PartialKey>) -> Seq<(Address, PartialKey)> {
    choose|s: Seq<(Address, PartialKey)>| ascending(s) && as_map(s) == m
}

/// The partial keys of `s` without their contributors.
pub open spec fn keys_of(s: Seq<(Address, PartialKey)>) -> Seq<PartialKey> {
    Seq::new(s.len(), |i: int| s[i].1)
}

/// The entries of a list are its contributions in the order of their
/// contributors, and nothing else of the list bears on them.
pub proof fn lemma_entries_in_order(list: PartialKeyList)
    requires
        list.wf(),
    ensures
        in_order(list@) == list.entries(),
        keys_of(in_order(list@)) == list.keys_in_order(),
{
    let s = list.entries();
    assert(ascending(s) && as_map(s) == list@);
    let t = in_order(list@);
    lemma_same_map_same_order(s, t);
}

/// The store after the trigger has fired `n` times more.
pub open spec fn after_triggers(v: KvStoreView, n: nat) -> KvStoreView
    decreases n,
{
    if n == 0 {
        v
    } else {
        after_triggers(v, (n - 1) as nat).advanced()
    }
}

/// The round that the trigger hands out after `n` earlier ones is the `n`-th
/// after the one that the store holds, whenever the store was written: each
/// trigger moves the counter on by exactly one.
pub proof fn lemma_round_ids_consecutive(v: KvStoreView, n: nat)
    requires
        v.current_key_id() + n <= u64::MAX,
    ensures
        after_triggers(v, n).current_key_id() == v.current_key_id() + n,
    decreases n,
{
    if n > 0 {
        lemma_round_ids_consecutive(v, (n - 1) as nat);
    }
}

/// A later trigger hands out a larger round than an earlier one, so no round
/// is handed out twice.
pub proof fn lemma_round_ids_increase(v: KvStoreView, i: nat, j: nat)
    requires
        i < j,
        v.current_key_id() + j <= u64::MAX,
    ensures
        after_triggers(v, i).current_key_id() < after_triggers(v, j).current_key_id(),
{
    lemma_round_ids_consecutive(v, i);
    lemma_round_ids_consecutive(v, j);
}

/// The mapping `m` after the entries of `d` were put into it, in the order of
/// `d`.
pub open spec fn received<V>(m: Map<Address, V>, d: Seq<(Address, V)>) -> Map<Address, V>
    decreases d.len(),
{
    if d.len() == 0 {
        m
    } else {
        received(m, d.drop_last()).insert(d.last().0, d.last().1)
    }
}

/// Whether `a` is the address of an entry of `d`.
pub open spec fn mentions<V>(d: Seq<(Address, V)>, a: Address) -> bool {
    exists|i: int| 0 <= i < d.len() && (#[trigger] d[i]).0 == a
}

/// No address occurs twice in `d`.
pub open spec fn distinct_addresses<V>(d: Seq<(Address, V)>) -> bool {
    forall|i: int, j: int| 0 <= i < j < d.len() ==> (#[trigger] d[i]).0 != (#[trigger] d[j]).0
}

/// What a mapping holds after entries with distinct addresses were put into
/// it: what it held before, and each entry's value under its address.
pub proof fn lemma_received<V>(m: Map<Address, V>, d: Seq<(Address, V)>)
    requires
        distinct_addresses(d),
    ensures
        forall|i: int|
            0 <= i < d.len() ==> received(m, d).contains_key((#[trigger] d[i]).0) && received(
                m,
                d,
            )[d[i].0] == d[i].1,
        forall|a: Address|
            !mentions(d, a) ==> (#[trigger] received(m, d).contains_key(a) <==> m.contains_key(a))
                && (m.contains_key(a) ==> received(m, d)[a] == m[a]),
    decreases d.len(),
{
    if d.len() > 0 {
        let e = d.drop_last();
        let n = d.len() - 1;
        assert forall|i: int, j: int| 0 <= i < j < e.len() implies (#[trigger] e[i]).0
            != (#[trigger] e[j]).0 by {
            assert(d[i].0 != d[j].0);
        }
        lemma_received(m, e);
        assert forall|i: int| 0 <= i < d.len() implies received(m, d).contains_key(
            (#[trigger] d[i]).0,
        ) && received(m, d)[d[i].0] == d[i].1 by {
            if i < n {
                assert(e[i] == d[i]);
                assert(d[i].0 != d[n].0);
            }
        }
        assert forall|a: Address| !mentions(d, a) implies (#[trigger] received(
            m,
            d,
        ).contains_key(a) <==> m.contains_key(a)) && (m.contains_key(a) ==> received(m, d)[a]
            == m[a]) by {
            assert(d[n].0 != a);
            if mentions(e, a) {
                let i = choose|i: int| 0 <= i < e.len() && (#[trigger] e[i]).0 == a;
                assert(d[i].0 == a);
            }
            assert(received(m, e).contains_key(a) <==> m.contains_key(a));
            assert(received(m, d) == received(m, e).insert(d[n].0, d[n].1));
        }
    }
}

/// Entries with distinct addresses give the same mapping in whatever order
/// they are put into it.
pub proof fn lemma_received_order_independent<V>(
    m: Map<Address, V>,
    d: Seq<(Address, V)>,
    e: Seq<(Address, V)>,
)
    requires
        distinct_addresses(d),
        distinct_addresses(e),
        forall|x: (Address, V)| d.contains(x) <==> e.contains(x),
    ensures
        received(m, d) == received(m, e),
{
    lemma_received(m, d);
    lemma_received(m, e);
    let x = received(m, d);
    let y = received(m, e);
    assert forall|a: Address| x.contains_key(a) == y.contains_key(a) && (x.contains_key(a)
        ==> x[a] == y[a]) by {
        if mentions(d, a) {
            let i = choose|i: int| 0 <= i < d.len() && (#[trigger] d[i]).0 == a;
            assert(d.contains(d[i]));
            assert(e.contains(d[i]));
            let j = choose|j: int| 0 <= j < e.len() && e[j] == d[i];
            assert(e[j].0 == a);
        } else if mentions(e, a) {
            let j = choose|j: int| 0 <= j < e.len() && (#[trigger] e[j]).0 == a;
            assert(e.contains(e[j]));
            assert(d.contains(e[j]));
            let i = choose|i: int| 0 <= i < d.len() && d[i] == e[j];
            assert(d[i].0 == a);
        }
    }
    assert(x =~= y);
}

/// The partial keys of the deliveries `d`, each with its contributor.
pub open spec fn keys_sent(d: Seq<(Address, PartialKey, PartialKeyProof)>) -> Seq<
    (Address, PartialKey),
> {
    Seq::new(d.len(), |i: int| (d[i].0, d[i].1))
}

/// The proofs of the deliveries `d`, each with its contributor.
pub open spec fn proofs_sent(d: Seq<(Address, PartialKey, PartialKeyProof)>) -> Seq<
    (Address, PartialKeyProof),
> {
    Seq::new(d.len(), |i: int| (d[i].0, d[i].2))
}

/// The store after the deliveries `d` were accepted for the round `key_id`,
/// in the order of `d`.
pub open spec fn delivered(
    v: KvStoreView,
    key_id: u64,
    d: Seq<(Address, PartialKey, PartialKeyProof)>,
) -> KvStoreView
    decreases d.len(),
{
    if d.len() == 0 {
        v
    } else {
        synced(delivered(v, key_id, d.drop_last()), key_id, d.last().0, d.last().1, d.last().2)
    }
}

/// No contributor occurs twice in `d`.
pub open spec fn distinct_contributors(d: Seq<(Address, PartialKey, PartialKeyProof)>) -> bool {
    forall|i: int, j: int| 0 <= i < j < d.len() ==> (#[trigger] d[i]).0 != (#[trigger] d[j]).0
}

/// `d` and `e` hold the same contributions.
pub open spec fn same_contributions(
    d: Seq<(Address, PartialKey, PartialKeyProof)>,
    e: Seq<(Address, PartialKey, PartialKeyProof)>,
) -> bool {
    forall|x: (Address, PartialKey, PartialKeyProof)| d.contains(x) <==> e.contains(x)
}

/// Deliveries to one round change that round's contributions and nothing
/// else of the store.
pub proof fn lemma_delivered(
    v: KvStoreView,
    key_id: u64,
    d: Seq<(Address, PartialKey, PartialKeyProof)>,
)
    requires
        d.len() > 0,
    ensures
        delivered(v, key_id, d) == (KvStoreView {
            partial_keys: v.partial_keys.insert(
                key_id,
                received(v.partial_keys_of(key_id), keys_sent(d)),
            ),
            partial_key_proofs: v.partial_key_proofs.insert(
                key_id,
                received(v.partial_key_proofs_of(key_id), proofs_sent(d)),
            ),
            ..v
        }),
    decreases d.len(),
{
    let e = d.drop_last();
    if e.len() > 0 {
        lemma_delivered(v, key_id, e);
    }
    let before = delivered(v, key_id, e);
    assert(keys_sent(d).drop_last() =~= keys_sent(e));
    assert(proofs_sent(d).drop_last() =~= proofs_sent(e));
    assert(before.partial_keys_of(key_id) == received(v.partial_keys_of(key_id), keys_sent(e)));
    assert(before.partial_key_proofs_of(key_id) == received(
        v.partial_key_proofs_of(key_id),
        proofs_sent(e),
    ));
    assert(delivered(v, key_id, d).partial_keys =~= v.partial_keys.insert(
        key_id,
        received(v.partial_keys_of(key_id), keys_sent(d)),
    ));
    assert(delivered(v, key_id, d).partial_key_proofs =~= v.partial_key_proofs.insert(
        key_id,
        received(v.partial_key_proofs_of(key_id), proofs_sent(d)),
    ));
}

/// Deliveries of distinct contributors hold each contributor's key once and
/// its proof once.
pub proof fn lemma_sent_distinct(d: Seq<(Address, PartialKey, PartialKeyProof)>)
    requires
        distinct_contributors(d),
    ensures
        distinct_addresses(keys_sent(d)),
        distinct_addresses(proofs_sent(d)),
{
    let keys = keys_sent(d);
    let proofs = proofs_sent(d);
    assert forall|i: int, j: int| 0 <= i < j < keys.len() implies (#[trigger] keys[i]).0
        != (#[trigger] keys[j]).0 by {
        assert(d[i].0 != d[j].0);
    }
    assert forall|i: int, j: int| 0 <= i < j < proofs.len() implies (#[trigger] proofs[i]).0
        != (#[trigger] proofs[j]).0 by {
        assert(d[i].0 != d[j].0);
    }
}

/// A key or a proof that stands in the deliveries `d` stands in `e` too,
/// where `e` holds every contribution of `d`.
pub proof fn lemma_sent_same(
    d: Seq<(Address, PartialKey, PartialKeyProof)>,
    e: Seq<(Address, PartialKey, PartialKeyProof)>,
)
    requires
        forall|x: (Address, PartialKey, PartialKeyProof)| d.contains(x) ==> e.contains(x),
    ensures
        forall|x: (Address, PartialKey)| keys_sent(d).contains(x) ==> keys_sent(e).contains(x),
        forall|x: (Address, PartialKeyProof)|
            proofs_sent(d).contains(x) ==> proofs_sent(e).contains(x),
{
    let dk = keys_sent(d);
    let ek = keys_sent(e);
    let dp = proofs_sent(d);
    let ep = proofs_sent(e);
    assert forall|x: (Address, PartialKey)| dk.contains(x) implies ek.contains(x) by {
        let i = choose|i: int| 0 <= i < dk.len() && dk[i] == x;
        assert(d.contains(d[i]));
        let j = choose|j: int| 0 <= j < e.len() && e[j] == d[i];
        assert(ek[j] == x);
    }
    assert forall|x: (Address, PartialKeyProof)| dp.contains(x) implies ep.contains(x) by {
        let i = choose|i: int| 0 <= i < dp.len() && dp[i] == x;
        assert(d.contains(d[i]));
        let j = choose|j: int| 0 <= j < e.len() && e[j] == d[i];
        assert(ep[j] == x);
    }
}

/// The order in which the contributions of distinct contributors arrive does
/// not show in the store, nor in what the round's aggregation is given: two
/// orders of the same contributions leave the same store.
pub proof fn lemma_delivery_order_independent(
    v: KvStoreView,
    key_id: u64,
    d: Seq<(Address, PartialKey, PartialKeyProof)>,
    e: Seq<(Address, PartialKey, PartialKeyProof)>,
)
    requires
        distinct_contributors(d),
        distinct_contributors(e),
        same_contributions(d, e),
    ensures
        delivered(v, key_id, d) == delivered(v, key_id, e),
        keys_of(in_order(delivered(v, key_id, d).partial_keys_of(key_id))) == keys_of(
            in_order(delivered(v, key_id, e).partial_keys_of(key_id)),
        ),
{
    if d.len() == 0 {
        if e.len() > 0 {
            assert(e.contains(e[0]));
            assert(d.contains(e[0]));
        }
    } else {
        assert(d.contains(d[0]));
        assert(e.contains(d[0]));
        lemma_delivered(v, key_id, d);
        lemma_delivered(v, key_id, e);
        lemma_sent_distinct(d);
        lemma_sent_distinct(e);
        lemma_sent_same(d, e);
        lemma_sent_same(e, d);
        lemma_received_order_independent(
            v.partial_keys_of(key_id),
            keys_sent(d),
            keys_sent(e),
        );
        lemma_received_order_independent(
            v.partial_key_proofs_of(key_id),
            proofs_sent(d),
            proofs_sent(e),
        );
    }
}

/// One request for each of the members, for the round `key_id`. Each stands
/// for itself: what becomes of one does not bear on another.
pub fn run_generate_partial_key(key_generator_clients: &KeyGeneratorList, key_id: KeyId) -> (r: Vec<
    GenerateRequest,
>)
    ensures
        r@ == generate_requests(key_generator_clients@, key_id),
{
    let parameter = RunGeneratePartialKey { key_id };
    let mut out: Vec<GenerateRequest> = Vec::new();
    let mut i: usize = 0;
    while i < key_generator_clients.key_generators.len()
        invariant
            parameter == (RunGeneratePartialKey { key_id }),
            i <= key_generator_clients@.len(),
            out@ == generate_requests(key_generator_clients@, key_id).subrange(0, i as int),
        decreases key_generator_clients.key_generators.len() - i,
    {
        let key_generator = &key_generator_clients.key_generators[i];
        out.push(
            GenerateRequest {
                address: key_generator.address,
                rpc_url: key_generator.cluster_rpc_url.clone(),
                parameter,
            },
        );
        i += 1;
        proof {
            assert(out@ =~= generate_requests(key_generator_clients@, key_id).subrange(
                0,
                i as int,
            ));
        }
    }
    proof {
        assert(out@ =~= generate_requests(key_generator_clients@, key_id));
    }
    out
}

/// Handing out a round leaves the members as they were: the node's own
/// partial key for the new round can be delivered to whom the requests go.
pub proof fn lemma_trigger_keeps_members(v: KvStoreView)
    ensures
        members(v.advanced()) == members(v),
{
    let w = v.advanced();
    let n = v.addresses().len() as int;
    assert(w.addresses() == v.addresses());
    assert forall|i: int| 0 <= i < n implies w.key_generator(w.addresses()[i])
        == v.key_generator(v.addresses()[i]) by {}
    if all_known(v, n) {
        assert(all_known(w, n));
        if v.address_list is Some {
            assert(members(w).unwrap() =~= members(v).unwrap());
        }
    } else {
        let i = choose|i: int| 0 <= i < n && !((#[trigger] v.key_generator(
            v.addresses()[i],
        )) is Some);
        assert(!(w.key_generator(w.addresses()[i]) is Some));
    }
}

/// One trigger of the scheduler on the node `address`: hands out the current
/// round, moves the counter on by one, and plans the node's own generation,
/// the request to each other member and the round's aggregation. The members stay as they were, so
/// the node's own partial key can be delivered to every one of them. Where
/// the members are not known, or the counter cannot move on, no round starts
/// and the store stays as it was.
pub fn run_single_key_generator(store: &mut KvStore, config: &Config, address: &Address) -> (r:
    Result<RoundPlan, KvStoreError>)
    requires
        old(store).wf(),
    ensures
        final(store).wf(),
        match r {
            Ok(plan) => {
                &&& members(old(store)@) is Some
                &&& old(store)@.current_key_id() < u64::MAX
                &&& plan.key_id == old(store)@.current_key_id()
                &&& plan.local_generation == (RunGeneratePartialKey { key_id: plan.key_id })
                &&& members(final(store)@) == members(old(store)@)
                &&& plan.requests@ == generate_requests(
                    peers(members(old(store)@).unwrap(), *address),
                    plan.key_id,
                )
                &&& plan.aggregate_after == config.partial_key_aggregation_cycle
                &&& final(store)@ == old(store)@.advanced()
            },
            Err(e) => {
                &&& final(store)@ == old(store)@
                &&& e == (if members(old(store)@) is None {
                    KvStoreError::NotFound
                } else {
                    KvStoreError::KeyIdExhausted
                })
                &&& members(old(store)@) is None || old(store)@.current_key_id() == u64::MAX
            },
        },
{
    let key_generator_clients = match KeyGeneratorList::get(store) {
        Ok(list) => list,
        Err(e) => {
            return Err(e);
        },
    };
    let key_id = match KeyIdModel::take(store) {
        Ok(key_id) => key_id,
        Err(e) => {
            return Err(e);
        },
    };
    let requests = run_generate_partial_key(&key_generator_clients.peers(address), key_id);
    proof {
        lemma_trigger_keeps_members(old(store)@);
    }
    Ok(
        RoundPlan {
            key_id,
            local_generation: RunGeneratePartialKey { key_id },
            requests,
            aggregate_after: config.partial_key_aggregation_cycle(),
        },
    )
}

/// What the aggregation of a round is given: the partial keys that the round
/// holds at this moment, in the order of their contributors; none where
/// nothing has come in.
pub fn aggregation_input(store: &KvStore, key_id: KeyId) -> (r: Result<
    Vec<PartialKey>,
    KvStoreError,
>)
    requires
        store.wf(),
    ensures
        r is Ok,
        r.unwrap()@ == keys_of(in_order(store@.partial_keys_of(key_id))),
{
    match PartialKeyListModel::get_or_default(store, key_id) {
        Ok(list) => {
            proof {
                lemma_entries_in_order(list);
            }
            Ok(list.to_vec())
        },
        Err(e) => Err(e),
    }
}

/// What has happened to a round that waits for its aggregation.
#[derive(Debug, PartialEq, Eq)]
pub enum RoundEvent {
    /// The round's delay has passed.
    AggregationDue,
    /// The partial keys were combined into this key.
    Aggregated(AggregatedKey),
    /// The time-lock puzzle of the aggregated key gave this key.
    Solved(DecryptionKey),
    /// The time-lock puzzle could not be solved.
    SolveFailed,
}

/// What is to be done next for a round.
#[derive(Debug, PartialEq, Eq)]
pub enum RoundAction {
    /// Combine these partial keys.
    Aggregate(Vec<PartialKey>),
    /// Solve the time-lock puzzle of this aggregated key.
    Solve(AggregatedKey),
    /// Nothing more: the round is over.
    Finish,
}

/// The store after `event` has been taken in for the round `key_id`.
pub open spec fn after_event(v: KvStoreView, key_id: u64, event: RoundEvent) -> KvStoreView {
    match event {
        RoundEvent::Aggregated(key) => KvStoreView {
            aggregated_keys: v.aggregated_keys.insert(key_id, key),
            ..v
        },
        RoundEvent::Solved(key) => if v.aggregated_keys.contains_key(key_id) {
            KvStoreView { decryption_keys: v.decryption_keys.insert(key_id, key), ..v }
        } else {
            v
        },
        _ => v,
    }
}

/// Takes a round one step on. When its delay has passed, the partial keys that
/// it holds at that moment are handed out to be combined. The aggregated key
/// is recorded and handed out to be solved. The decryption key is recorded,
/// unless the round has no aggregated key: then it is refused. A puzzle that
/// could not be solved leaves the round without a decryption key.
pub fn on_round_event(store: &mut KvStore, key_id: KeyId, event: RoundEvent) -> (r: Result<
    RoundAction,
    KvStoreError,
>)
    requires
        old(store).wf(),
    ensures
        final(store).wf(),
        final(store)@ == after_event(old(store)@, key_id, event),
        match event {
            RoundEvent::AggregationDue => r is Ok && r.unwrap() is Aggregate
                && r.unwrap()->Aggregate_0@ == keys_of(
                in_order(old(store)@.partial_keys_of(key_id)),
            ),
            RoundEvent::Aggregated(key) => r is Ok && r.unwrap() == RoundAction::Solve(key),
            RoundEvent::Solved(_) => if old(store)@.aggregated_keys.contains_key(key_id) {
                r is Ok && r.unwrap() is Finish
            } else {
                r == Err::<RoundAction, KvStoreError>(KvStoreError::MissingAggregatedKey)
            },
            RoundEvent::SolveFailed => r is Ok && r.unwrap() is Finish,
        },
{
    match event {
        RoundEvent::AggregationDue => {
            match aggregation_input(store, key_id) {
                Ok(partial_key_list) => Ok(RoundAction::Aggregate(partial_key_list)),
                Err(e) => Err(e),
            }
        },
        RoundEvent::Aggregated(aggregated_key) => {
            let _ = AggregatedKeyModel::put(store, key_id, &aggregated_key);
            Ok(RoundAction::Solve(aggregated_key))
        },
        RoundEvent::Solved(decryption_key) => {
            match DecryptionKeyModel::put(store, key_id, &decryption_key) {
                Ok(_) => Ok(RoundAction::Finish),
                Err(e) => Err(e),
            }
        },
        RoundEvent::SolveFailed => Ok(RoundAction::Finish),
    }
}

/// Whatever happens to a round, and in whatever order, a decryption key is
/// never recorded for a round that has no aggregated key.
pub proof fn lemma_event_keeps_derivation_order(
    v: KvStoreView,
    key_id: u64,
    event: RoundEvent,
    id: u64,
)
    requires
        v.decryption_keys.contains_key(id) ==> v.aggregated_keys.contains_key(id),
    ensures
        after_event(v, key_id, event).decryption_keys.contains_key(id) ==> after_event(
            v,
            key_id,
            event,
        ).aggregated_keys.contains_key(id),
{
}

/// The request that a member is sent depends on that member and on the round
/// alone, not on which other members there are or on where it stands among
/// them.
pub proof fn lemma_request_stands_alone(
    members: Seq<KeyGenerator>,
    others: Seq<KeyGenerator>,
    key_id: u64,
    i: int,
    j: int,
)
    requires
        0 <= i < members.len(),
        0 <= j < others.len(),
        members[i] == others[j],
    ensures
        generate_requests(members, key_id)[i] == generate_requests(others, key_id)[j],
{
}

} // verus!
