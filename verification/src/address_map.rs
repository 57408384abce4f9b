//! A mapping from addresses to values, kept in the order of the addresses, so
//! that walking it gives the same order whatever the order of the writes.

use vstd::prelude::*;
use crate::address::Address;

verus! {

/// Whether the addresses of `s` strictly ascend.
pub open spec fn ascending<V>(s: Seq<(Address, V)>) -> bool {
    forall|i: int, j: int|
        0 <= i < j < s.len() ==> (#[trigger] s[i]).0.before((#[trigger] s[j]).0)
}

/// Whether `a` has an entry in `s`.
pub open spec fn has_address<V>(s: Seq<(Address, V)>, a: Address) -> bool {
    exists|i: int| 0 <= i < s.len() && (#[trigger] s[i]).0 == a
}

/// A place at which `a` stands in `s`, where it has one.
pub open spec fn place_of<V>(s: Seq<(Address, V)>, a: Address) -> int {
    choose|i: int| 0 <= i < s.len() && (#[trigger] s[i]).0 == a
}

/// The entries of `s` as a mapping from address to value.
pub open spec fn as_map<V>(s: Seq<(Address, V)>) -> Map<Address, V> {
    Map::new(|a: Address| has_address(s, a), |a: Address| s[place_of(s, a)].1)
}

/// In an ascending sequence each address stands at one place only, and
/// the mapping gives it the value that stands there.
pub proof fn lemma_entry<V>(s: Seq<(Address, V)>, i: int)
    requires
        ascending(s),
        0 <= i < s.len(),
    ensures
        has_address(s, s[i].0),
        place_of(s, s[i].0) == i,
        as_map(s).contains_key(s[i].0),
        as_map(s)[s[i].0] == s[i].1,
{
    let a = s[i].0;
    assert(has_address(s, a));
    let j = place_of(s, a);
    assert(s[j].0 == a);
    if j < i {
        assert(s[j].0.before(s[i].0));
    }
    if i < j {
        assert(s[i].0.before(s[j].0));
    }
}

/// Replacing the value of the address at place `i` is an insertion into
/// the mapping.
pub proof fn lemma_replace<V>(s: Seq<(Address, V)>, i: int, k: V)
    requires
        ascending(s),
        0 <= i < s.len(),
    ensures
        ascending(s.update(i, (s[i].0, k))),
        as_map(s.update(i, (s[i].0, k))) == as_map(s).insert(s[i].0, k),
{
    let a = s[i].0;
    let t = s.update(i, (a, k));
    assert forall|p: int, q: int| 0 <= p < q < t.len() implies (#[trigger] t[p]).0.before(
        (#[trigger] t[q]).0,
    ) by {
        assert(t[p].0 == s[p].0 && t[q].0 == s[q].0);
        assert(s[p].0.before(s[q].0));
    }
    let m = as_map(s).insert(a, k);
    assert forall|b: Address| as_map(t).contains_key(b) <==> m.contains_key(b) by {
        if has_address(t, b) {
            let j = place_of(t, b);
            assert(s[j].0 == b);
        }
        if has_address(s, b) {
            let j = place_of(s, b);
            assert(t[j].0 == b);
        }
        assert(t[i].0 == a);
    }
    assert forall|b: Address| as_map(t).contains_key(b) implies as_map(t)[b] == m[b] by {
        let j = place_of(t, b);
        lemma_entry(t, j);
        if j != i {
            assert(s[j].0 == b);
            lemma_entry(s, j);
            lemma_entry(s, i);
        }
    }
    assert(as_map(t) =~= m);
}

/// Placing a new address between the smaller and the larger ones is an
/// insertion into the mapping.
pub proof fn lemma_place<V>(s: Seq<(Address, V)>, i: int, a: Address, k: V)
    requires
        ascending(s),
        0 <= i <= s.len(),
        forall|j: int| 0 <= j < i ==> (#[trigger] s[j]).0.before(a),
        forall|j: int| i <= j < s.len() ==> a.before((#[trigger] s[j]).0),
    ensures
        ascending(s.insert(i, (a, k))),
        as_map(s.insert(i, (a, k))) == as_map(s).insert(a, k),
{
    let t = s.insert(i, (a, k));
    assert(t.len() == s.len() + 1);
    assert(t[i] == (a, k));
    assert forall|p: int| 0 <= p < i implies #[trigger] t[p] == s[p] by {}
    assert forall|p: int| i < p < t.len() implies #[trigger] t[p] == s[p - 1] by {}
    assert forall|p: int, q: int| 0 <= p < q < t.len() implies (#[trigger] t[p]).0.before(
        (#[trigger] t[q]).0,
    ) by {
        if p < i && q > i {
            assert(s[p].0.before(a));
            assert(a.before(s[q - 1].0));
        } else if p < i && q < i {
            assert(s[p].0.before(s[q].0));
        } else if p > i {
            assert(s[p - 1].0.before(s[q - 1].0));
        } else if p == i {
            assert(a.before(s[q - 1].0));
        } else {
            assert(s[p].0.before(a));
        }
    }
    let m = as_map(s).insert(a, k);
    assert forall|b: Address| as_map(t).contains_key(b) <==> m.contains_key(b) by {
        if has_address(t, b) {
            let j = place_of(t, b);
            if j < i {
                assert(s[j].0 == b);
            } else if j > i {
                assert(s[j - 1].0 == b);
            }
        }
        if has_address(s, b) {
            let j = place_of(s, b);
            if j < i {
                assert(t[j].0 == b);
            } else {
                assert(t[j + 1] == s[j]);
                assert(t[j + 1].0 == b);
            }
        }
        assert(t[i].0 == a);
    }
    assert forall|b: Address| as_map(t).contains_key(b) implies as_map(t)[b] == m[b] by {
        let j = place_of(t, b);
        lemma_entry(t, j);
        if j < i {
            lemma_entry(s, j);
        } else if j > i {
            lemma_entry(s, j - 1);
        }
    }
    assert(as_map(t) =~= m);
}

/// Taking the address at place `i` out removes it from the mapping.
pub proof fn lemma_take_out<V>(s: Seq<(Address, V)>, i: int)
    requires
        ascending(s),
        0 <= i < s.len(),
    ensures
        ascending(s.remove(i)),
        as_map(s.remove(i)) == as_map(s).remove(s[i].0),
{
    let a = s[i].0;
    let t = s.remove(i);
    assert(t.len() == s.len() - 1);
    assert forall|p: int| 0 <= p < i implies #[trigger] t[p] == s[p] by {}
    assert forall|p: int| i <= p < t.len() implies #[trigger] t[p] == s[p + 1] by {}
    assert forall|p: int, q: int| 0 <= p < q < t.len() implies (#[trigger] t[p]).0.before(
        (#[trigger] t[q]).0,
    ) by {
        let sp = if p < i { p } else { p + 1 };
        let sq = if q < i { q } else { q + 1 };
        assert(s[sp].0.before(s[sq].0));
    }
    let m = as_map(s).remove(a);
    assert forall|b: Address| as_map(t).contains_key(b) <==> m.contains_key(b) by {
        if has_address(t, b) {
            let j = place_of(t, b);
            let sj = if j < i { j } else { j + 1 };
            assert(s[sj].0 == b);
            if sj < i {
                assert(s[sj].0.before(s[i].0));
            } else {
                assert(s[i].0.before(s[sj].0));
            }
        }
        if has_address(s, b) && b != a {
            let j = place_of(s, b);
            if j < i {
                assert(t[j].0 == b);
            } else {
                assert(t[j - 1] == s[j]);
                assert(t[j - 1].0 == b);
            }
        }
    }
    assert forall|b: Address| as_map(t).contains_key(b) implies as_map(t)[b] == m[b] by {
        let j = place_of(t, b);
        lemma_entry(t, j);
        let sj = if j < i { j } else { j + 1 };
        lemma_entry(s, sj);
    }
    assert(as_map(t) =~= m);
}

/// An ascending sequence is determined by its mapping: two of them with the
/// same addresses and values are the same sequence.
pub proof fn lemma_same_map_same_order<V>(
    s: Seq<(Address, V)>,
    t: Seq<(Address, V)>,
)
    requires
        ascending(s),
        ascending(t),
        as_map(s) == as_map(t),
    ensures
        s == t,
    decreases s.len(),
{
    if s.len() == 0 {
        if t.len() > 0 {
            lemma_entry(t, 0);
            assert(has_address(s, t[0].0));
        }
        assert(s =~= t);
    } else {
        let n = s.len() - 1;
        lemma_entry(s, n);
        assert(has_address(t, s[n].0));
        let m = t.len() - 1;
        lemma_entry(t, m);
        assert(has_address(s, t[m].0));
        let j = place_of(t, s[n].0);
        let i = place_of(s, t[m].0);
        if j < m {
            assert(t[j].0.before(t[m].0));
        }
        if i < n {
            assert(s[i].0.before(s[n].0));
        }
        assert(s[n].0 == t[m].0);
        assert(s[n] == t[m]);
        lemma_take_out(s, n);
        lemma_take_out(t, m);
        lemma_same_map_same_order(s.remove(n), t.remove(m));
        assert(s =~= s.remove(n).push(s[n]));
        assert(t =~= t.remove(m).push(t[m]));
    }
}

/// A mapping from addresses to values, in the order of the addresses.
#[derive(Debug, PartialEq, Eq)]
pub struct AddressMap<V> {
    entries: Vec<(Address, V)>,
}

impl<V> AddressMap<V> {
    /// The entries in the order of their addresses.
    pub closed spec fn entries(&self) -> Seq<(Address, V)> {
        self.entries@
    }

    /// The addresses ascend, so that none occurs twice.
    pub open spec fn wf(&self) -> bool {
        ascending(self.entries())
    }

    pub open spec fn view(&self) -> Map<Address, V> {
        as_map(self.entries())
    }

    /// A mapping without entries.
    pub fn new() -> (r: AddressMap<V>)
        ensures
            r.wf(),
            r.entries() == Seq::<(Address, V)>::empty(),
            r@ == Map::<Address, V>::empty(),
    {
        let r = AddressMap { entries: Vec::new() };
        proof {
            assert(r@ =~= Map::<Address, V>::empty());
        }
        r
    }

    /// The number of entries.
    pub fn len(&self) -> (n: usize)
        ensures
            n == self.entries().len(),
    {
        self.entries.len()
    }

    /// The entry at place `i`, counted in the order of the addresses.
    pub fn entry(&self, i: usize) -> (r: &(Address, V))
        requires
            i < self.entries().len(),
        ensures
            *r == self.entries()[i as int],
    {
        &self.entries[i]
    }

    /// Appends an entry as it stands; the order of the addresses is the
    /// caller's to keep.
    pub(crate) fn push_last(&mut self, address: Address, value: V)
        ensures
            final(self).entries() == old(self).entries().push((address, value)),
    {
        self.entries.push((address, value));
    }

    /// The value under `address`, where there is one.
    pub fn get(&self, address: &Address) -> (r: Option<&V>)
        requires
            self.wf(),
        ensures
            match r {
                Some(value) => self@.contains_key(*address) && *value == self@[*address],
                None => !self@.contains_key(*address),
            },
    {
        let mut i: usize = 0;
        while i < self.entries.len()
            invariant
                self.wf(),
                i <= self.entries@.len(),
                forall|j: int| 0 <= j < i ==> (#[trigger] self.entries@[j]).0 != *address,
            decreases self.entries.len() - i,
        {
            if self.entries[i].0 == *address {
                proof {
                    lemma_entry(self.entries@, i as int);
                }
                return Some(&self.entries[i].1);
            }
            i += 1;
        }
        None
    }

    /// Puts `value` under `address`, in place of what stood there.
    pub fn insert(&mut self, address: Address, value: V)
        requires
            old(self).wf(),
        ensures
            final(self).wf(),
            final(self)@ == old(self)@.insert(address, value),
    {
        let ghost s = self.entries@;
        let mut i: usize = 0;
        while i < self.entries.len() && self.entries[i].0.is_before(&address)
            invariant
                self.entries@ == s,
                i <= s.len(),
                forall|j: int| 0 <= j < i ==> (#[trigger] s[j]).0.before(address),
            decreases self.entries.len() - i,
        {
            i += 1;
        }
        if i < self.entries.len() && self.entries[i].0 == address {
            proof {
                lemma_replace(s, i as int, value);
            }
            self.entries.set(i, (address, value));
        } else {
            proof {
                assert forall|j: int| i <= j < s.len() implies address.before(
                    (#[trigger] s[j]).0,
                ) by {
                    if i < j {
                        assert(s[i as int].0.before(s[j].0));
                    }
                }
                lemma_place(s, i as int, address, value);
            }
            self.entries.insert(i, (address, value));
        }
    }

    /// Takes out what stands under `address`, if anything does.
    pub fn remove(&mut self, address: Address)
        requires
            old(self).wf(),
        ensures
            final(self).wf(),
            final(self)@ == old(self)@.remove(address),
    {
        let ghost s = self.entries@;
        let mut i: usize = 0;
        while i < self.entries.len() && !(self.entries[i].0 == address)
            invariant
                self.entries@ == s,
                i <= s.len(),
                forall|j: int| 0 <= j < i ==> (#[trigger] s[j]).0 != address,
            decreases self.entries.len() - i,
        {
            i += 1;
        }
        if i < self.entries.len() {
            proof {
                lemma_take_out(s, i as int);
            }
            let _ = self.entries.remove(i);
        } else {
            proof {
                assert(!has_address(s, address));
                assert(as_map(s).remove(address) =~= as_map(s));
            }
        }
    }
}

} // verus!
