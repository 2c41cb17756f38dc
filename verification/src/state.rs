//! Persistent state of the pot ledger: the administrative configuration, the
//! global fee accumulator, and the pot mapping from account identifiers to
//! pot records. The storage layer owns the lifecycle of these values and
//! passes them by reference into each operation.

use vstd::prelude::*;

verus! {

/// The contract's administrative configuration: the owner identifier, set
/// once at instantiation and read-only afterwards.
#[derive(Clone, Debug, PartialEq, Eq)]
pub struct Config {
    pub owner: String,
}

/// One beneficiary's claim on funds.
#[derive(Clone, Debug, PartialEq, Eq)]
pub struct Pot {
    /// The account entitled to withdraw this pot.
    pub target_addr: String,
    /// How much is currently held for this beneficiary, in the smallest
    /// token unit.
    pub collected: u128,
}

/// The global fee accumulator: the total fee amount retained by the contract
/// across all withdrawals to date.
#[derive(Clone, Copy, Debug, PartialEq, Eq)]
pub struct ContractFees {
    pub collected: u128,
}

/// No two records bind the same account.
pub open spec fn unique_keys(s: Seq<Pot>) -> bool {
    forall|i: int, j: int|
        0 <= i < j < s.len() ==> s[i].target_addr@ != s[j].target_addr@
}

/// The mapping that a sequence of pot records denotes: each record binds its
/// target address to its collected amount, later records overriding earlier
/// ones.
pub open spec fn pots_map_of(s: Seq<Pot>) -> Map<Seq<char>, u128>
    decreases s.len(),
{
    if s.len() == 0 {
        Map::empty()
    } else {
        pots_map_of(s.drop_last()).insert(s.last().target_addr@, s.last().collected)
    }
}

/// The pot mapping: at most one pot per account, keyed by the beneficiary's
/// account identifier.
pub struct PotStore {
    pots: Vec<Pot>,
}

impl View for PotStore {
    type V = Map<Seq<char>, u128>;

    closed spec fn view(&self) -> Map<Seq<char>, u128> {
        pots_map_of(self.pots@)
    }
}

proof fn lemma_unique_drop_last(s: Seq<Pot>)
    requires
        unique_keys(s),
        s.len() > 0,
    ensures
        unique_keys(s.drop_last()),
{
    assert forall|i: int, j: int|
        0 <= i < j < s.drop_last().len() implies s.drop_last()[i].target_addr@
        != s.drop_last()[j].target_addr@ by {
        assert(s.drop_last()[i] == s[i]);
        assert(s.drop_last()[j] == s[j]);
    }
}

proof fn lemma_pots_map_index(s: Seq<Pot>, i: int)
    requires
        unique_keys(s),
        0 <= i < s.len(),
    ensures
        pots_map_of(s).contains_key(s[i].target_addr@),
        pots_map_of(s)[s[i].target_addr@] == s[i].collected,
    decreases s.len(),
{
    lemma_unique_drop_last(s);
    if i < s.len() - 1 {
        assert(s.drop_last()[i] == s[i]);
        lemma_pots_map_index(s.drop_last(), i);
        assert(s[i].target_addr@ != s.last().target_addr@);
    }
}

proof fn lemma_pots_map_absent(s: Seq<Pot>, k: Seq<char>)
    requires
        forall|i: int| 0 <= i < s.len() ==> s[i].target_addr@ != k,
    ensures
        !pots_map_of(s).contains_key(k),
    decreases s.len(),
{
    if s.len() > 0 {
        assert forall|i: int|
            0 <= i < s.drop_last().len() implies s.drop_last()[i].target_addr@ != k by {
            assert(s.drop_last()[i] == s[i]);
        }
        lemma_pots_map_absent(s.drop_last(), k);
        assert(s.last() == s[s.len() - 1]);
    }
}

proof fn lemma_pots_map_remove(s: Seq<Pot>, i: int)
    requires
        unique_keys(s),
        0 <= i < s.len(),
    ensures
        pots_map_of(s.remove(i)) == pots_map_of(s).remove(s[i].target_addr@),
        unique_keys(s.remove(i)),
        forall|j: int|
            0 <= j < s.remove(i).len() ==> s.remove(i)[j].target_addr@ != s[i].target_addr@,
    decreases s.len(),
{
    let k = s[i].target_addr@;
    let t = s.remove(i);
    assert forall|j: int| 0 <= j < t.len() implies t[j].target_addr@ != k by {
        if j < i {
            assert(t[j] == s[j]);
        } else {
            assert(t[j] == s[j + 1]);
        }
    }
    assert forall|a: int, b: int|
        0 <= a < b < t.len() implies t[a].target_addr@ != t[b].target_addr@ by {
        if a < i {
            assert(t[a] == s[a]);
        } else {
            assert(t[a] == s[a + 1]);
        }
        if b < i {
            assert(t[b] == s[b]);
        } else {
            assert(t[b] == s[b + 1]);
        }
    }
    lemma_unique_drop_last(s);
    if i == s.len() - 1 {
        assert(t =~= s.drop_last());
        lemma_pots_map_absent(s.drop_last(), k);
        assert(pots_map_of(t) =~= pots_map_of(s).remove(k));
    } else {
        assert(t.len() == s.len() - 1);
        assert(t.last() == s[s.len() - 1]);
        assert(t.last() == s.last());
        assert(t.drop_last() =~= s.drop_last().remove(i));
        assert(s.drop_last()[i] == s[i]);
        lemma_pots_map_remove(s.drop_last(), i);
        assert(s[i].target_addr@ != s.last().target_addr@);
        assert(pots_map_of(t) == pots_map_of(s.drop_last()).remove(k).insert(
            s.last().target_addr@,
            s.last().collected,
        ));
        assert(pots_map_of(t) =~= pots_map_of(s).remove(k));
    }
}

proof fn lemma_pots_map_push(s: Seq<Pot>, p: Pot)
    ensures
        pots_map_of(s.push(p)) == pots_map_of(s).insert(p.target_addr@, p.collected),
{
    assert(s.push(p).drop_last() =~= s);
    assert(s.push(p).last() == p);
}

impl PotStore {
    /// Internal well-formedness: no account holds two pot records.
    pub closed spec fn wf(&self) -> bool {
        unique_keys(self.pots@)
    }

    /// An empty pot mapping.
    pub fn new() -> (r: PotStore)
        ensures
            r.wf(),
            r@ == Map::<Seq<char>, u128>::empty(),
    {
        PotStore { pots: Vec::new() }
    }

    fn find(&self, key: &String) -> (r: Option<usize>)
        ensures
            match r {
                Some(i) => i < self.pots@.len() && self.pots@[i as int].target_addr@ == key@,
                None => forall|j: int|
                    0 <= j < self.pots@.len() ==> self.pots@[j].target_addr@ != key@,
            },
    {
        let n = self.pots.len();
        let mut i: usize = 0;
        while i < n
            invariant
                n == self.pots@.len(),
                i <= n,
                forall|j: int| 0 <= j < i ==> self.pots@[j].target_addr@ != key@,
            decreases n - i,
        {
            if self.pots[i].target_addr == *key {
                return Some(i);
            }
            i = i + 1;
        }
        None
    }

    /// Look up the pot recorded for `key`, if any. The returned copy carries
    /// the stored target address (always equal to the key) and the collected
    /// amount.
    pub fn lookup(&self, key: &String) -> (r: Option<Pot>)
        requires
            self.wf(),
        ensures
            match r {
                Some(p) => self@.contains_key(key@) && p.target_addr@ == key@ && p.collected
                    == self@[key@],
                None => !self@.contains_key(key@),
            },
    {
        match self.find(key) {
            Some(i) => {
                proof {
                    lemma_pots_map_index(self.pots@, i as int);
                }
                let p = &self.pots[i];
                Some(Pot { target_addr: p.target_addr.clone(), collected: p.collected })
            },
            None => {
                proof {
                    lemma_pots_map_absent(self.pots@, key@);
                }
                None
            },
        }
    }

    /// Record `pot` under its target address, overwriting any pot already
    /// recorded for that account.
    pub fn insert(&mut self, pot: Pot)
        requires
            old(self).wf(),
        ensures
            final(self).wf(),
            final(self)@ == old(self)@.insert(pot.target_addr@, pot.collected),
    {
        let ghost k = pot.target_addr@;
        match self.find(&pot.target_addr) {
            Some(i) => {
                proof {
                    lemma_pots_map_remove(self.pots@, i as int);
                }
                self.pots.remove(i);
            },
            None => {},
        }
        // In both branches no record for this key remains.
        let ghost mid = self.pots@;
        proof {
            lemma_pots_map_push(mid, pot);
        }
        self.pots.push(pot);
        proof {
            assert forall|a: int, b: int|
                0 <= a < b < self.pots@.len() implies self.pots@[a].target_addr@
                != self.pots@[b].target_addr@ by {
                if b < mid.len() {
                    assert(self.pots@[a] == mid[a]);
                    assert(self.pots@[b] == mid[b]);
                } else {
                    assert(self.pots@[a] == mid[a]);
                    assert(self.pots@[b] == pot);
                    assert(mid[a].target_addr@ != k);
                }
            }
            assert(old(self)@.remove(k).insert(k, pot.collected) =~= old(self)@.insert(
                k,
                pot.collected,
            ));
        }
    }

    /// The recorded pots, one record per account, in storage order.
    pub fn entries(&self) -> (r: &Vec<Pot>)
        requires
            self.wf(),
        ensures
            unique_keys(r@),
            pots_map_of(r@) == self@,
    {
        &self.pots
    }

    /// Delete the pot recorded for `key`, if any.
    pub fn remove(&mut self, key: &String)
        requires
            old(self).wf(),
        ensures
            final(self).wf(),
            final(self)@ == old(self)@.remove(key@),
    {
        match self.find(key) {
            Some(i) => {
                proof {
                    lemma_pots_map_remove(self.pots@, i as int);
                }
                self.pots.remove(i);
            },
            None => {
                proof {
                    lemma_pots_map_absent(self.pots@, key@);
                    assert(old(self)@.remove(key@) =~= old(self)@);
                }
            },
        }
    }
}

/// Record both pots of a freshly split deposit, the second overriding the
/// first should both name the same account.
pub fn save_pot(pots: &mut PotStore, pot1: &Pot, pot2: &Pot)
    requires
        old(pots).wf(),
    ensures
        final(pots).wf(),
        final(pots)@ == old(pots)@.insert(pot1.target_addr@, pot1.collected).insert(
            pot2.target_addr@,
            pot2.collected,
        ),
{
    pots.insert(Pot { target_addr: pot1.target_addr.clone(), collected: pot1.collected });
    pots.insert(Pot { target_addr: pot2.target_addr.clone(), collected: pot2.collected });
}

} // verus!
