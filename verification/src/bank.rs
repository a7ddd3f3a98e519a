//! Model of the host ledger's bank: account balances and circulating supply
//! per denom, with privileged mint, burn and the query surface the modules
//! rely on.
//!
//! The internal invariant ties the tracked supply of every denom to the sum
//! of the account balances of that denom, which is what lets callers conclude
//! that a denom with zero supply has no holders.
use vstd::prelude::*;

use crate::errors::ModuleError;
use crate::text::str_eq;

verus! {

struct BalanceEntry {
    address: String,
    denom: String,
    amount: u128,
}

struct SupplyEntry {
    denom: String,
    amount: u128,
}

/// Balance triples: account address, denom, amount.
pub type BalSeq = Seq<(Seq<char>, Seq<char>, u128)>;

/// Amount held by an account in a denom, last entry winning (unique keys make
/// it the only one).
pub open spec fn bal_lookup(s: BalSeq, a: Seq<char>, d: Seq<char>) -> u128
    decreases s.len(),
{
    if s.len() == 0 {
        0
    } else if s.last().0 == a && s.last().1 == d {
        s.last().2
    } else {
        bal_lookup(s.drop_last(), a, d)
    }
}

/// Supply recorded for a denom.
pub open spec fn sup_lookup(s: Seq<(Seq<char>, u128)>, d: Seq<char>) -> u128
    decreases s.len(),
{
    if s.len() == 0 {
        0
    } else if s.last().0 == d {
        s.last().1
    } else {
        sup_lookup(s.drop_last(), d)
    }
}

/// Sum of the balances of one denom over all accounts.
pub open spec fn sum_denom(s: BalSeq, d: Seq<char>) -> int
    decreases s.len(),
{
    if s.len() == 0 {
        0
    } else {
        sum_denom(s.drop_last(), d) + if s.last().1 == d {
            s.last().2 as int
        } else {
            0
        }
    }
}

proof fn lemma_sum_nonneg(s: BalSeq, d: Seq<char>)
    ensures
        sum_denom(s, d) >= 0,
    decreases s.len(),
{
    if s.len() > 0 {
        lemma_sum_nonneg(s.drop_last(), d);
    }
}

/// A single entry's amount never exceeds the denom sum.
proof fn lemma_elem_le_sum(s: BalSeq, i: int)
    requires
        0 <= i < s.len(),
    ensures
        s[i].2 as int <= sum_denom(s, s[i].1),
    decreases s.len(),
{
    lemma_sum_nonneg(s.drop_last(), s[i].1);
    if i == s.len() - 1 {
    } else {
        lemma_elem_le_sum(s.drop_last(), i);
    }
}

proof fn lemma_sum_update(s: BalSeq, i: int, v: u128, d: Seq<char>)
    requires
        0 <= i < s.len(),
    ensures
        sum_denom(s.update(i, (s[i].0, s[i].1, v)), d) == sum_denom(s, d) + if s[i].1 == d {
            v as int - s[i].2 as int
        } else {
            0
        },
    decreases s.len(),
{
    let s2 = s.update(i, (s[i].0, s[i].1, v));
    if i == s.len() - 1 {
        assert(s2.drop_last() =~= s.drop_last());
        assert(s2.last() == (s[i].0, s[i].1, v));
    } else {
        assert(s2.drop_last() =~= s.drop_last().update(i, (s[i].0, s[i].1, v)));
        assert(s2.last() == s.last());
        lemma_sum_update(s.drop_last(), i, v, d);
    }
}

proof fn lemma_sum_push(s: BalSeq, e: (Seq<char>, Seq<char>, u128), d: Seq<char>)
    ensures
        sum_denom(s.push(e), d) == sum_denom(s, d) + if e.1 == d {
            e.2 as int
        } else {
            0
        },
{
    assert(s.push(e).drop_last() =~= s);
    assert(s.push(e).last() == e);
}

proof fn lemma_bal_lookup_at(s: BalSeq, i: int)
    requires
        0 <= i < s.len(),
        forall|p: int, q: int|
            #![trigger s[p], s[q]]
            0 <= p < q < s.len() ==> (s[p].0, s[p].1) != (s[q].0, s[q].1),
    ensures
        bal_lookup(s, s[i].0, s[i].1) == s[i].2,
    decreases s.len(),
{
    if i == s.len() - 1 {
    } else {
        assert((s[i].0, s[i].1) != (s.last().0, s.last().1));
        lemma_bal_lookup_at(s.drop_last(), i);
    }
}

proof fn lemma_bal_lookup_absent(s: BalSeq, a: Seq<char>, d: Seq<char>)
    requires
        forall|p: int| 0 <= p < s.len() ==> (#[trigger] s[p].0, #[trigger] s[p].1) != (a, d),
    ensures
        bal_lookup(s, a, d) == 0,
    decreases s.len(),
{
    if s.len() > 0 {
        lemma_bal_lookup_absent(s.drop_last(), a, d);
    }
}

proof fn lemma_bal_lookup_update(s: BalSeq, i: int, v: u128, a: Seq<char>, d: Seq<char>)
    requires
        0 <= i < s.len(),
        forall|p: int, q: int|
            #![trigger s[p], s[q]]
            0 <= p < q < s.len() ==> (s[p].0, s[p].1) != (s[q].0, s[q].1),
    ensures
        bal_lookup(s.update(i, (s[i].0, s[i].1, v)), a, d) == if (a, d) == (s[i].0, s[i].1) {
            v
        } else {
            bal_lookup(s, a, d)
        },
    decreases s.len(),
{
    let s2 = s.update(i, (s[i].0, s[i].1, v));
    if i == s.len() - 1 {
        assert(s2.drop_last() =~= s.drop_last());
    } else {
        assert(s2.drop_last() =~= s.drop_last().update(i, (s[i].0, s[i].1, v)));
        assert(s2.last() == s.last());
        lemma_bal_lookup_update(s.drop_last(), i, v, a, d);
        assert((s[i].0, s[i].1) != (s.last().0, s.last().1));
    }
}

proof fn lemma_sup_lookup_at(s: Seq<(Seq<char>, u128)>, i: int)
    requires
        0 <= i < s.len(),
        forall|p: int, q: int|
            #![trigger s[p], s[q]]
            0 <= p < q < s.len() ==> s[p].0 != s[q].0,
    ensures
        sup_lookup(s, s[i].0) == s[i].1,
    decreases s.len(),
{
    if i == s.len() - 1 {
    } else {
        lemma_sup_lookup_at(s.drop_last(), i);
    }
}

proof fn lemma_sup_lookup_absent(s: Seq<(Seq<char>, u128)>, d: Seq<char>)
    requires
        forall|p: int| 0 <= p < s.len() ==> (#[trigger] s[p].0) != d,
    ensures
        sup_lookup(s, d) == 0,
    decreases s.len(),
{
    if s.len() > 0 {
        lemma_sup_lookup_absent(s.drop_last(), d);
    }
}

proof fn lemma_sup_lookup_update(s: Seq<(Seq<char>, u128)>, i: int, v: u128, d: Seq<char>)
    requires
        0 <= i < s.len(),
        forall|p: int, q: int|
            #![trigger s[p], s[q]]
            0 <= p < q < s.len() ==> s[p].0 != s[q].0,
    ensures
        sup_lookup(s.update(i, (s[i].0, v)), d) == if d == s[i].0 {
            v
        } else {
            sup_lookup(s, d)
        },
    decreases s.len(),
{
    let s2 = s.update(i, (s[i].0, v));
    if i == s.len() - 1 {
        assert(s2.drop_last() =~= s.drop_last());
    } else {
        assert(s2.drop_last() =~= s.drop_last().update(i, (s[i].0, v)));
        assert(s2.last() == s.last());
        lemma_sup_lookup_update(s.drop_last(), i, v, d);
    }
}

proof fn lemma_sup_lookup_push(s: Seq<(Seq<char>, u128)>, e: (Seq<char>, u128), d: Seq<char>)
    ensures
        sup_lookup(s.push(e), d) == if d == e.0 {
            e.1
        } else {
            sup_lookup(s, d)
        },
{
    assert(s.push(e).drop_last() =~= s);
    assert(s.push(e).last() == e);
}


/// Entries held by one account.
pub open spec fn holder_pred(a: Seq<char>) -> spec_fn((Seq<char>, Seq<char>, u128)) -> bool {
    |e: (Seq<char>, Seq<char>, u128)| e.0 == a
}

/// Projection of a balance entry to its (denom, amount) coin.
pub open spec fn coin_proj() -> spec_fn((Seq<char>, Seq<char>, u128)) -> (Seq<char>, u128) {
    |e: (Seq<char>, Seq<char>, u128)| (e.1, e.2)
}

/// View of an executable (denom, amount) pair.
pub open spec fn coin_view() -> spec_fn((String, u128)) -> (Seq<char>, u128) {
    |p: (String, u128)| (p.0@, p.1)
}

/// The bank ledger: account balances and per-denom supply.
pub struct Bank {
    balances: Vec<BalanceEntry>,
    supplies: Vec<SupplyEntry>,
}

impl Bank {
    /// Balance triples (address, denom, amount), in insertion order.
    pub closed spec fn entry_seq(&self) -> BalSeq {
        self.balances@.map_values(|e: BalanceEntry| (e.address@, e.denom@, e.amount))
    }

    /// Supply pairs (denom, amount), in insertion order.
    pub closed spec fn sup_seq(&self) -> Seq<(Seq<char>, u128)> {
        self.supplies@.map_values(|e: SupplyEntry| (e.denom@, e.amount))
    }

    /// Amount an account holds in a denom.
    pub open spec fn spec_balance(&self, a: Seq<char>, d: Seq<char>) -> u128 {
        bal_lookup(self.entry_seq(), a, d)
    }

    /// Circulating supply of a denom.
    pub open spec fn spec_supply(&self, d: Seq<char>) -> u128 {
        sup_lookup(self.sup_seq(), d)
    }

    /// Keys are unique and the supply of every denom is the sum of its
    /// balances.
    pub closed spec fn inv(&self) -> bool {
        &&& forall|p: int, q: int|
            #![trigger self.entry_seq()[p], self.entry_seq()[q]]
            0 <= p < q < self.entry_seq().len() ==> (self.entry_seq()[p].0, self.entry_seq()[p].1)
                != (self.entry_seq()[q].0, self.entry_seq()[q].1)
        &&& forall|p: int, q: int|
            #![trigger self.sup_seq()[p], self.sup_seq()[q]]
            0 <= p < q < self.sup_seq().len() ==> self.sup_seq()[p].0 != self.sup_seq()[q].0
        &&& forall|d: Seq<char>| #[trigger] sum_denom(self.entry_seq(), d) == self.spec_supply(d)
    }

    /// No account holds more of a denom than its whole supply; in
    /// particular a denom with zero supply has no holders.
    pub proof fn lemma_balance_le_supply(&self, a: Seq<char>, d: Seq<char>)
        requires
            self.inv(),
        ensures
            self.spec_balance(a, d) <= self.spec_supply(d),
    {
        let s = self.entry_seq();
        if exists|i: int| 0 <= i < s.len() && (#[trigger] s[i].0, s[i].1) == (a, d) {
            let i = choose|i: int| 0 <= i < s.len() && (#[trigger] s[i].0, s[i].1) == (a, d);
            lemma_bal_lookup_at(s, i);
            lemma_elem_le_sum(s, i);
        } else {
            assert(forall|p: int| 0 <= p < s.len() ==> (#[trigger] s[p].0, #[trigger] s[p].1) != (
            a,
            d,
            ));
            lemma_bal_lookup_absent(s, a, d);
        }
    }

    /// An empty ledger.
    pub fn new() -> (r: Self)
        ensures
            r.inv(),
            forall|a: Seq<char>, d: Seq<char>| #[trigger] r.spec_balance(a, d) == 0,
            forall|d: Seq<char>| #[trigger] r.spec_supply(d) == 0,
    {
        let r = Bank { balances: Vec::new(), supplies: Vec::new() };
        proof {
            assert(r.entry_seq() =~= Seq::<(Seq<char>, Seq<char>, u128)>::empty());
            assert(r.sup_seq() =~= Seq::<(Seq<char>, u128)>::empty());
        }
        r
    }

    fn find_balance(&self, a: &str, d: &str) -> (r: Option<usize>)
        ensures
            match r {
                Some(i) => i < self.entry_seq().len() && self.entry_seq()[i as int].0 == a@
                    && self.entry_seq()[i as int].1 == d@,
                None => forall|p: int|
                    0 <= p < self.entry_seq().len() ==> (
                    #[trigger] self.entry_seq()[p].0,
                    #[trigger] self.entry_seq()[p].1,
                    ) != (a@, d@),
            },
    {
        let n = self.balances.len();
        let mut i: usize = 0;
        while i < n
            invariant
                n == self.entry_seq().len(),
                i <= n,
                forall|p: int|
                    0 <= p < i ==> (
                    #[trigger] self.entry_seq()[p].0,
                    #[trigger] self.entry_seq()[p].1,
                    ) != (a@, d@),
            decreases n - i,
        {
            if str_eq(self.balances[i].address.as_str(), a) && str_eq(
                self.balances[i].denom.as_str(),
                d,
            ) {
                return Some(i);
            }
            i += 1;
        }
        None
    }

    fn find_supply(&self, d: &str) -> (r: Option<usize>)
        ensures
            match r {
                Some(i) => i < self.sup_seq().len() && self.sup_seq()[i as int].0 == d@,
                None => forall|p: int|
                    0 <= p < self.sup_seq().len() ==> (#[trigger] self.sup_seq()[p].0) != d@,
            },
    {
        let n = self.supplies.len();
        let mut i: usize = 0;
        while i < n
            invariant
                n == self.sup_seq().len(),
                i <= n,
                forall|p: int| 0 <= p < i ==> (#[trigger] self.sup_seq()[p].0) != d@,
            decreases n - i,
        {
            if str_eq(self.supplies[i].denom.as_str(), d) {
                return Some(i);
            }
            i += 1;
        }
        None
    }

    /// Supply query.
    pub fn supply_of(&self, d: &str) -> (r: u128)
        requires
            self.inv(),
        ensures
            r == self.spec_supply(d@),
    {
        match self.find_supply(d) {
            Some(i) => {
                proof {
                    lemma_sup_lookup_at(self.sup_seq(), i as int);
                }
                self.supplies[i].amount
            },
            None => {
                proof {
                    lemma_sup_lookup_absent(self.sup_seq(), d@);
                }
                0
            },
        }
    }

    /// Balance query.
    pub fn balance_of(&self, a: &str, d: &str) -> (r: u128)
        requires
            self.inv(),
        ensures
            r == self.spec_balance(a@, d@),
    {
        match self.find_balance(a, d) {
            Some(i) => {
                proof {
                    lemma_bal_lookup_at(self.entry_seq(), i as int);
                }
                self.balances[i].amount
            },
            None => {
                proof {
                    lemma_bal_lookup_absent(self.entry_seq(), a@, d@);
                }
                0
            },
        }
    }

    /// All balances of one account, as (denom, amount) pairs in ledger order.
    pub fn balances_of(&self, a: &str) -> (r: Vec<(String, u128)>)
        requires
            self.inv(),
        ensures
            r@.map_values(coin_view()) == self.entry_seq().filter(holder_pred(a@)).map_values(
                coin_proj(),
            ),
    {
        let n = self.balances.len();
        let mut out: Vec<(String, u128)> = Vec::new();
        let mut i: usize = 0;
        while i < n
            invariant
                n == self.entry_seq().len(),
                i <= n,
                out@.map_values(coin_view()) =~= self.entry_seq().take(i as int).filter(
                    holder_pred(a@),
                ).map_values(coin_proj()),
            decreases n - i,
        {
            proof {
                assert(self.entry_seq().take(i + 1).drop_last() =~= self.entry_seq().take(
                    i as int,
                ));
                assert(self.entry_seq().take(i + 1).last() == self.entry_seq()[i as int]);
            }
            let ghost entry = self.entry_seq()[i as int];
            let ghost out0 = out@;
            if str_eq(self.balances[i].address.as_str(), a) {
                let denom = self.balances[i].denom.clone();
                let amount = self.balances[i].amount;
                out.push((denom, amount));
                proof {
                    reveal(Seq::filter);
                    assert(holder_pred(a@)(entry));
                    assert(self.entry_seq().take(i + 1).filter(holder_pred(a@))
                        =~= self.entry_seq().take(i as int).filter(holder_pred(a@)).push(entry));
                    assert(out@ =~= out0.push((denom, amount)));
                    assert(coin_view()((denom, amount)) == (entry.1, entry.2));
                    assert(out@.map_values(coin_view()) =~= out0.map_values(coin_view()).push(
                        (entry.1, entry.2),
                    ));
                    assert(self.entry_seq().take(i + 1).filter(holder_pred(a@)).map_values(
                        coin_proj(),
                    ) =~= self.entry_seq().take(i as int).filter(holder_pred(a@)).map_values(
                        coin_proj(),
                    ).push((entry.1, entry.2)));
                }
            } else {
                proof {
                    reveal(Seq::filter);
                    assert(!holder_pred(a@)(entry));
                    assert(self.entry_seq().take(i + 1).filter(holder_pred(a@))
                        =~= self.entry_seq().take(i as int).filter(holder_pred(a@)));
                }
            }
            i += 1;
        }
        proof {
            assert(self.entry_seq().take(n as int) =~= self.entry_seq());
        }
        out
    }

    /// Privileged mint: adds to one account's balance and to the denom's
    /// supply. Fails only when the new supply would not fit.
    pub fn mint(&mut self, to: &str, d: &str, amount: u128) -> (r: Result<(), ModuleError>)
        requires
            old(self).inv(),
        ensures
            match r {
                Ok(()) => {
                    &&& final(self).inv()
                    &&& old(self).spec_supply(d@) + amount <= u128::MAX
                    &&& final(self).spec_supply(d@) == old(self).spec_supply(d@) + amount
                    &&& final(self).spec_balance(to@, d@) == old(self).spec_balance(to@, d@)
                        + amount
                    &&& forall|a2: Seq<char>, d2: Seq<char>|
                        (a2, d2) != (to@, d@) ==> #[trigger] final(self).spec_balance(a2, d2)
                            == old(self).spec_balance(a2, d2)
                    &&& forall|d2: Seq<char>|
                        d2 != d@ ==> #[trigger] final(self).spec_supply(d2) == old(
                            self,
                        ).spec_supply(d2)
                },
                Err(e) => {
                    &&& *final(self) == *old(self)
                    &&& old(self).spec_supply(d@) + amount > u128::MAX
                    &&& e matches ModuleError::SupplyOverflow { denom } && denom@ == d@
                },
            },
    {
        let sup_idx = self.find_supply(d);
        let old_sup = match sup_idx {
            Some(j) => {
                proof {
                    lemma_sup_lookup_at(self.sup_seq(), j as int);
                }
                self.supplies[j].amount
            },
            None => {
                proof {
                    lemma_sup_lookup_absent(self.sup_seq(), d@);
                }
                0
            },
        };
        let new_sup = match old_sup.checked_add(amount) {
            Some(v) => v,
            None => {
                return Err(ModuleError::SupplyOverflow { denom: d.to_owned() });
            },
        };
        let ghost sups0 = self.sup_seq();
        match sup_idx {
            Some(j) => {
                self.supplies[j].amount = new_sup;
                proof {
                    assert(self.sup_seq() =~= sups0.update(j as int, (sups0[j as int].0, new_sup)));
                    assert(forall|d2: Seq<char>|
                        #[trigger] sup_lookup(self.sup_seq(), d2) == if d2 == d@ {
                            new_sup
                        } else {
                            sup_lookup(sups0, d2)
                        }) by {
                        assert forall|d2: Seq<char>| true implies #[trigger] sup_lookup(
                            self.sup_seq(),
                            d2,
                        ) == if d2 == d@ {
                            new_sup
                        } else {
                            sup_lookup(sups0, d2)
                        } by {
                            lemma_sup_lookup_update(sups0, j as int, new_sup, d2);
                        }
                    }
                }
            },
            None => {
                self.supplies.push(SupplyEntry { denom: d.to_owned(), amount: new_sup });
                proof {
                    assert(self.sup_seq() =~= sups0.push((d@, new_sup)));
                    assert(forall|d2: Seq<char>|
                        #[trigger] sup_lookup(self.sup_seq(), d2) == if d2 == d@ {
                            new_sup
                        } else {
                            sup_lookup(sups0, d2)
                        }) by {
                        assert forall|d2: Seq<char>| true implies #[trigger] sup_lookup(
                            self.sup_seq(),
                            d2,
                        ) == if d2 == d@ {
                            new_sup
                        } else {
                            sup_lookup(sups0, d2)
                        } by {
                            lemma_sup_lookup_push(sups0, (d@, new_sup), d2);
                        }
                    }
                    assert(forall|p: int, q: int|
                        #![trigger self.sup_seq()[p], self.sup_seq()[q]]
                        0 <= p < q < self.sup_seq().len() ==> self.sup_seq()[p].0
                            != self.sup_seq()[q].0) by {
                        assert(forall|p: int|
                            0 <= p < sups0.len() ==> self.sup_seq()[p] == sups0[p]);
                    }
                }
            },
        }
        let ghost sups1 = self.sup_seq();
        proof {
            assert(forall|d2: Seq<char>|
                #[trigger] sup_lookup(sups1, d2) == if d2 == d@ {
                    new_sup
                } else {
                    sup_lookup(old(self).sup_seq(), d2)
                });
            assert(forall|p: int, q: int|
                #![trigger sups1[p], sups1[q]]
                0 <= p < q < sups1.len() ==> sups1[p].0 != sups1[q].0);
        }
        let ghost bals0 = old(self).entry_seq();
        let bal_idx = self.find_balance(to, d);
        match bal_idx {
            Some(i) => {
                proof {
                    assert(self.entry_seq() =~= bals0);
                    lemma_bal_lookup_at(bals0, i as int);
                    lemma_elem_le_sum(bals0, i as int);
                    assert(sum_denom(bals0, d@) == old(self).spec_supply(d@));
                    lemma_sum_nonneg(bals0, d@);
                }
                let old_bal = self.balances[i].amount;
                self.balances[i].amount = old_bal + amount;
                proof {
                    assert(self.entry_seq() =~= bals0.update(
                        i as int,
                        (bals0[i as int].0, bals0[i as int].1, (old_bal + amount) as u128),
                    ));
                    lemma_mint_bal_update(bals0, i as int, (old_bal + amount) as u128, to@, d@);
                }
            },
            None => {
                proof {
                    assert(self.entry_seq() =~= bals0);
                    lemma_bal_lookup_absent(bals0, to@, d@);
                    lemma_sum_nonneg(bals0, d@);
                }
                self.balances.push(
                    BalanceEntry { address: to.to_owned(), denom: d.to_owned(), amount },
                );
                proof {
                    assert(self.entry_seq() =~= bals0.push((to@, d@, amount)));
                    lemma_mint_bal_push(bals0, (to@, d@, amount));
                }
            },
        }
        proof {
            assert(self.sup_seq() =~= sups1);
            assert(self.spec_balance(to@, d@) == old(self).spec_balance(to@, d@) + amount);
            assert(forall|d2: Seq<char>| #[trigger]
                sum_denom(self.entry_seq(), d2) == sum_denom(bals0, d2) + if d2 == d@ {
                    amount as int
                } else {
                    0
                });
            assert forall|d2: Seq<char>| #[trigger]
                sum_denom(self.entry_seq(), d2) == self.spec_supply(d2) by {
                assert(sum_denom(old(self).entry_seq(), d2) == old(self).spec_supply(d2));
            }
            assert(self.inv());
        }
        Ok(())
    }

    /// Burn from one account: subtracts from its balance and from the
    /// denom's supply; fails when the account holds less than asked.
    pub fn burn(&mut self, from: &str, d: &str, amount: u128) -> (r: Result<(), ModuleError>)
        requires
            old(self).inv(),
        ensures
            match r {
                Ok(()) => {
                    &&& final(self).inv()
                    &&& old(self).spec_balance(from@, d@) >= amount
                    &&& final(self).spec_balance(from@, d@) == old(self).spec_balance(from@, d@)
                        - amount
                    &&& final(self).spec_supply(d@) == old(self).spec_supply(d@) - amount
                    &&& forall|a2: Seq<char>, d2: Seq<char>|
                        (a2, d2) != (from@, d@) ==> #[trigger] final(self).spec_balance(a2, d2)
                            == old(self).spec_balance(a2, d2)
                    &&& forall|d2: Seq<char>|
                        d2 != d@ ==> #[trigger] final(self).spec_supply(d2) == old(
                            self,
                        ).spec_supply(d2)
                },
                Err(e) => {
                    &&& *final(self) == *old(self)
                    &&& old(self).spec_balance(from@, d@) < amount
                    &&& e matches ModuleError::InsufficientFunds { balance, needed } && balance
                        == old(self).spec_balance(from@, d@) && needed == amount
                },
            },
    {
        let ghost bals0 = old(self).entry_seq();
        let ghost sups0 = old(self).sup_seq();
        let bal_idx = self.find_balance(from, d);
        let old_bal = match bal_idx {
            Some(i) => {
                proof {
                    lemma_bal_lookup_at(bals0, i as int);
                }
                self.balances[i].amount
            },
            None => {
                proof {
                    lemma_bal_lookup_absent(bals0, from@, d@);
                }
                0
            },
        };
        if old_bal < amount {
            return Err(ModuleError::InsufficientFunds { balance: old_bal, needed: amount });
        }
        proof {
            self.lemma_balance_le_supply(from@, d@);
            assert(old_bal == old(self).spec_balance(from@, d@));
        }
        match bal_idx {
            Some(i) => {
                proof {
                    lemma_bal_lookup_at(bals0, i as int);
                    lemma_elem_le_sum(bals0, i as int);
                }
                self.balances[i].amount = old_bal - amount;
                proof {
                    assert(self.entry_seq() =~= bals0.update(
                        i as int,
                        (bals0[i as int].0, bals0[i as int].1, (old_bal - amount) as u128),
                    ));
                    lemma_mint_bal_update(bals0, i as int, (old_bal - amount) as u128, from@, d@);
                    assert(forall|d2: Seq<char>| #[trigger]
                        sum_denom(self.entry_seq(), d2) == sum_denom(bals0, d2) - if d2 == d@ {
                            amount as int
                        } else {
                            0
                        });
                }
            },
            None => {
                proof {
                    assert(amount == 0);
                    assert(self.entry_seq() =~= bals0);
                    assert(bal_lookup(self.entry_seq(), from@, d@) == old_bal - amount);
                    assert(forall|d2: Seq<char>| #[trigger]
                        sum_denom(self.entry_seq(), d2) == sum_denom(bals0, d2) - if d2 == d@ {
                            amount as int
                        } else {
                            0
                        });
                }
            },
        }
        let ghost bals1 = self.entry_seq();
        let sup_idx = self.find_supply(d);
        match sup_idx {
            Some(j) => {
                proof {
                    lemma_sup_lookup_at(sups0, j as int);
                    assert(self.sup_seq() =~= sups0);
                }
                let old_sup = self.supplies[j].amount;
                proof {
                    assert(old_sup == old(self).spec_supply(d@));
                    assert(old_sup >= amount);
                }
                self.supplies[j].amount = old_sup - amount;
                proof {
                    assert(self.sup_seq() =~= sups0.update(j as int, (sups0[j as int].0, (old_sup
                        - amount) as u128)));
                    assert forall|d2: Seq<char>|
                        #[trigger] sup_lookup(self.sup_seq(), d2) == (if d2 == d@ {
                            (old_sup - amount) as u128
                        } else {
                            sup_lookup(sups0, d2)
                        }) by {
                        lemma_sup_lookup_update(sups0, j as int, (old_sup - amount) as u128, d2);
                    }
                }
            },
            None => {
                proof {
                    assert(self.sup_seq() =~= sups0);
                    lemma_sup_lookup_absent(sups0, d@);
                    assert(old(self).spec_supply(d@) == 0);
                    assert(amount == 0);
                }
            },
        }
        proof {
            assert(self.entry_seq() =~= bals1);
            assert(self.spec_supply(d@) == old(self).spec_supply(d@) - amount);
            assert(forall|d2: Seq<char>|
                d2 != d@ ==> #[trigger] self.spec_supply(d2) == old(self).spec_supply(d2));
            assert forall|d2: Seq<char>| #[trigger]
                sum_denom(self.entry_seq(), d2) == self.spec_supply(d2) by {
                assert(sum_denom(old(self).entry_seq(), d2) == old(self).spec_supply(d2));
            }
            assert(forall|p: int, q: int|
                #![trigger self.sup_seq()[p], self.sup_seq()[q]]
                0 <= p < q < self.sup_seq().len() ==> self.sup_seq()[p].0
                    != self.sup_seq()[q].0);
            assert(self.inv());
        }
        Ok(())
    }
}

/// After a mint-style update of one entry, lookups change only at that key
/// and the denom sum moves by the difference.
proof fn lemma_mint_bal_update(s: BalSeq, i: int, v: u128, a: Seq<char>, d: Seq<char>)
    requires
        0 <= i < s.len(),
        s[i].0 == a,
        s[i].1 == d,
        forall|p: int, q: int|
            #![trigger s[p], s[q]]
            0 <= p < q < s.len() ==> (s[p].0, s[p].1) != (s[q].0, s[q].1),
    ensures
        ({
            let s2 = s.update(i, (s[i].0, s[i].1, v));
            &&& forall|p: int, q: int|
                #![trigger s2[p], s2[q]]
                0 <= p < q < s2.len() ==> (s2[p].0, s2[p].1) != (s2[q].0, s2[q].1)
            &&& bal_lookup(s2, a, d) == v
            &&& forall|a2: Seq<char>, d2: Seq<char>|
                (a2, d2) != (a, d) ==> #[trigger] bal_lookup(s2, a2, d2) == bal_lookup(s, a2, d2)
            &&& forall|d2: Seq<char>| #[trigger]
                sum_denom(s2, d2) == sum_denom(s, d2) + if d2 == d {
                    v as int - s[i].2 as int
                } else {
                    0
                }
        }),
{
    let s2 = s.update(i, (s[i].0, s[i].1, v));
    assert(forall|p: int| 0 <= p < s2.len() ==> (#[trigger] s2[p].0, #[trigger] s2[p].1) == (
    s[p].0,
    s[p].1,
    ));
    assert forall|a2: Seq<char>, d2: Seq<char>| true implies #[trigger] bal_lookup(s2, a2, d2) == (
    if (a2, d2) == (a, d) {
        v
    } else {
        bal_lookup(s, a2, d2)
    }) by {
        lemma_bal_lookup_update(s, i, v, a2, d2);
    }
    assert forall|d2: Seq<char>| true implies #[trigger] sum_denom(s2, d2) == sum_denom(s, d2) + (
    if d2 == d {
        v as int - s[i].2 as int
    } else {
        0
    }) by {
        lemma_sum_update(s, i, v, d2);
    }
}

/// After appending a fresh entry, lookups change only at its key and the
/// denom sum grows by its amount.
proof fn lemma_mint_bal_push(s: BalSeq, e: (Seq<char>, Seq<char>, u128))
    requires
        forall|p: int| 0 <= p < s.len() ==> (#[trigger] s[p].0, #[trigger] s[p].1) != (e.0, e.1),
        forall|p: int, q: int|
            #![trigger s[p], s[q]]
            0 <= p < q < s.len() ==> (s[p].0, s[p].1) != (s[q].0, s[q].1),
    ensures
        ({
            let s2 = s.push(e);
            &&& forall|p: int, q: int|
                #![trigger s2[p], s2[q]]
                0 <= p < q < s2.len() ==> (s2[p].0, s2[p].1) != (s2[q].0, s2[q].1)
            &&& bal_lookup(s2, e.0, e.1) == e.2
            &&& forall|a2: Seq<char>, d2: Seq<char>|
                (a2, d2) != (e.0, e.1) ==> #[trigger] bal_lookup(s2, a2, d2) == bal_lookup(
                    s,
                    a2,
                    d2,
                )
            &&& forall|d2: Seq<char>| #[trigger]
                sum_denom(s2, d2) == sum_denom(s, d2) + if d2 == e.1 {
                    e.2 as int
                } else {
                    0
                }
        }),
{
    let s2 = s.push(e);
    assert(s2.drop_last() =~= s);
    assert(s2.last() == e);
    assert(forall|p: int| 0 <= p < s.len() ==> s2[p] == s[p]);
    assert forall|d2: Seq<char>| true implies #[trigger] sum_denom(s2, d2) == sum_denom(s, d2) + (
    if d2 == e.1 {
        e.2 as int
    } else {
        0
    }) by {
        lemma_sum_push(s, e, d2);
    }
}

} // verus!
