//! The liquidity-share ledger: a fungible-token sub-ledger of the pair,
//! holding each provider's share balance and the total supply.
//!
//! Invariant: the sum of all balances always equals the total supply, so in
//! particular every single balance is bounded by the total supply.

use vstd::prelude::*;
use crate::actor::ActorId;
use crate::omap::{OrderedMap, lemma_seq_to_map_contains, lemma_seq_to_map_index};
use crate::u256::{U256, pow2_256};

verus! {

/// The sum of all balances in an entry sequence.
pub open spec fn sum_values(s: Seq<(u64, U256)>) -> int
    decreases s.len(),
{
    if s.len() == 0 {
        0
    } else {
        sum_values(s.drop_last()) + s.last().1.val()
    }
}

/// Balances are nonnegative, so the sum is too.
pub proof fn lemma_sum_nonneg(s: Seq<(u64, U256)>)
    ensures
        sum_values(s) >= 0,
    decreases s.len(),
{
    if s.len() > 0 {
        lemma_sum_nonneg(s.drop_last());
    }
}

/// Replacing one entry's value moves the sum by the difference.
pub proof fn lemma_sum_update(s: Seq<(u64, U256)>, i: int, e: (u64, U256))
    requires
        0 <= i < s.len(),
    ensures
        sum_values(s.update(i, e)) == sum_values(s) - s[i].1.val() + e.1.val(),
    decreases s.len(),
{
    let t = s.update(i, e);
    if i == s.len() - 1 {
        assert(t.drop_last() =~= s.drop_last());
    } else {
        lemma_sum_update(s.drop_last(), i, e);
        assert(t.drop_last() =~= s.drop_last().update(i, e));
        assert(t.last() == s.last());
    }
}

/// Inserting an entry adds its value to the sum.
pub proof fn lemma_sum_insert(s: Seq<(u64, U256)>, i: int, e: (u64, U256))
    requires
        0 <= i <= s.len(),
    ensures
        sum_values(s.insert(i, e)) == sum_values(s) + e.1.val(),
    decreases s.len(),
{
    let t = s.insert(i, e);
    if i == s.len() {
        assert(t.drop_last() =~= s);
    } else {
        lemma_sum_insert(s.drop_last(), i, e);
        assert(t.drop_last() =~= s.drop_last().insert(i, e));
        assert(t.last() == s.last());
    }
}

/// No single balance exceeds the sum.
pub proof fn lemma_element_le_sum(s: Seq<(u64, U256)>, i: int)
    requires
        0 <= i < s.len(),
    ensures
        s[i].1.val() <= sum_values(s),
    decreases s.len(),
{
    if i == s.len() - 1 {
        lemma_sum_nonneg(s.drop_last());
    } else {
        lemma_element_le_sum(s.drop_last(), i);
    }
}

/// Balances per holder and the total supply of liquidity shares.
pub struct Ledger {
    pub balances: OrderedMap<U256>,
    pub total_supply: U256,
}

impl Ledger {
    pub open spec fn balances_map(self) -> Map<u64, U256> {
        self.balances.as_map()
    }

    /// A holder's balance as an integer; absent holders hold zero.
    pub open spec fn balance_val(self, key: u64) -> int {
        if self.balances_map().contains_key(key) {
            self.balances_map()[key].val()
        } else {
            0
        }
    }

    pub open spec fn total(self) -> int {
        self.total_supply.val()
    }

    /// The ledger invariant: sorted balances whose sum is the total supply.
    pub open spec fn wf(self) -> bool {
        &&& self.balances.wf()
        &&& sum_values(self.balances.seq()) == self.total()
    }

    /// Every single balance is bounded by the sum of all balances.
    pub proof fn lemma_balance_le_sum(self, key: u64)
        requires
            self.balances.wf(),
        ensures
            0 <= self.balance_val(key) <= sum_values(self.balances.seq()),
    {
        self.balances.lemma_distinct();
        lemma_sum_nonneg(self.balances.seq());
        if self.balances_map().contains_key(key) {
            lemma_seq_to_map_contains(self.balances.seq(), key);
            let i = choose|i: int|
                0 <= i < self.balances.seq().len() && self.balances.seq()[i].0 == key;
            lemma_seq_to_map_index(self.balances.seq(), i);
            lemma_element_le_sum(self.balances.seq(), i);
        }
    }

    /// Every single balance is bounded by the total supply.
    pub proof fn lemma_balance_le_total(self, key: u64)
        requires
            self.wf(),
        ensures
            0 <= self.balance_val(key) <= self.total(),
    {
        self.lemma_balance_le_sum(key);
    }

    /// An empty ledger: no holders, zero supply.
    pub fn new() -> (r: Self)
        ensures
            r.wf(),
            r.total() == 0,
            forall|a: u64| r.balance_val(a) == 0,
            r.balances.seq().len() == 0,
    {
        let r = Ledger { balances: OrderedMap::new(), total_supply: U256::zero() };
        proof {
            assert(forall|a: u64| !r.balances_map().contains_key(a));
        }
        r
    }

    pub fn balance_of(&self, actor: ActorId) -> (r: U256)
        requires
            self.balances.wf(),
        ensures
            r.val() == self.balance_val(actor.value),
    {
        match self.balances.get(actor.value) {
            Some(b) => b,
            None => U256::zero(),
        }
    }

    pub fn total_supply(&self) -> (r: U256)
        ensures
            r.val() == self.total(),
    {
        self.total_supply
    }

    /// Creates `amount` new shares for `to`. The caller must have ruled out
    /// supply overflow; a single balance can then never overflow either.
    pub fn mint(&mut self, to: ActorId, amount: U256)
        requires
            old(self).wf(),
            old(self).total() + amount.val() < pow2_256(),
        ensures
            final(self).wf(),
            final(self).total() == old(self).total() + amount.val(),
            final(self).balance_val(to.value) == old(self).balance_val(to.value) + amount.val(),
            forall|a: u64| a != to.value ==> final(self).balance_val(a) == old(self).balance_val(a),
    {
        proof {
            self.lemma_balance_le_total(to.value);
        }
        let old_balance = self.balance_of(to);
        let new_balance = old_balance.add(amount);
        self.set_balance(to, new_balance);
        self.total_supply = self.total_supply.add(amount);
    }

    /// Destroys `amount` of `from`'s shares; they must exist.
    pub fn burn(&mut self, from: ActorId, amount: U256)
        requires
            old(self).wf(),
            amount.val() <= old(self).balance_val(from.value),
        ensures
            final(self).wf(),
            final(self).total() == old(self).total() - amount.val(),
            final(self).balance_val(from.value) == old(self).balance_val(from.value)
                - amount.val(),
            forall|a: u64| a != from.value ==> final(self).balance_val(a) == old(self).balance_val(
                a,
            ),
    {
        proof {
            self.lemma_balance_le_total(from.value);
        }
        let old_balance = self.balance_of(from);
        let new_balance = old_balance.sub(amount);
        self.set_balance(from, new_balance);
        self.total_supply = self.total_supply.sub(amount);
    }

    /// Moves `amount` of shares from `from` to `to`; fails (and changes
    /// nothing) exactly when `from`'s balance is too small.
    pub fn transfer(&mut self, from: ActorId, to: ActorId, amount: U256) -> (r: bool)
        requires
            old(self).wf(),
        ensures
            final(self).wf(),
            r == (amount.val() <= old(self).balance_val(from.value)),
            !r ==> *final(self) == *old(self),
            r ==> final(self).total() == old(self).total(),
            r && from.value == to.value ==> final(self).balance_val(from.value) == old(
                self,
            ).balance_val(from.value),
            r && from.value != to.value ==> final(self).balance_val(from.value) == old(
                self,
            ).balance_val(from.value) - amount.val() && final(self).balance_val(to.value) == old(
                self,
            ).balance_val(to.value) + amount.val(),
            r ==> forall|a: u64|
                a != from.value && a != to.value ==> final(self).balance_val(a) == old(
                    self,
                ).balance_val(a),
    {
        proof {
            self.lemma_balance_le_total(from.value);
        }
        let from_balance = self.balance_of(from);
        if from_balance.lt(&amount) {
            return false;
        }
        self.set_balance(from, from_balance.sub(amount));
        proof {
            // The running sum is now `total - amount`, so crediting `amount`
            // to any holder stays below the old total, hence below 2^256.
            self.lemma_balance_le_sum(to.value);
            crate::u256::U256::lemma_val_bound(self.total_supply);
        }
        let to_balance = self.balance_of(to);
        self.set_balance(to, to_balance.add(amount));
        true
    }

    /// A copy of the ledger, for state snapshots.
    pub fn snapshot(&self) -> (r: Self)
        ensures
            r.balances.seq() == self.balances.seq(),
            r.total_supply == self.total_supply,
    {
        Ledger { balances: self.balances.duplicate(), total_supply: self.total_supply }
    }

    /// Overwrites one holder's balance, adjusting the recorded sum.
    fn set_balance(&mut self, actor: ActorId, value: U256)
        requires
            old(self).balances.wf(),
        ensures
            final(self).balances.wf(),
            final(self).total_supply == old(self).total_supply,
            final(self).balance_val(actor.value) == value.val(),
            forall|a: u64| a != actor.value ==> final(self).balance_val(a) == old(
                self,
            ).balance_val(a),
            sum_values(final(self).balances.seq()) == sum_values(old(self).balances.seq()) - old(
                self,
            ).balance_val(actor.value) + value.val(),
    {
        proof {
            self.balances.lemma_distinct();
            if self.balances_map().contains_key(actor.value) {
                lemma_seq_to_map_contains(self.balances.seq(), actor.value);
                let i = choose|i: int|
                    0 <= i < self.balances.seq().len() && self.balances.seq()[i].0 == actor.value;
                lemma_seq_to_map_index(self.balances.seq(), i);
            }
        }
        let ghost pre = *self;
        let i = self.balances.insert(actor.value, value);
        proof {
            pre.balances.lemma_distinct();
            if pre.balances_map().contains_key(actor.value) {
                lemma_seq_to_map_index(pre.balances.seq(), i as int);
                lemma_sum_update(pre.balances.seq(), i as int, (actor.value, value));
            } else {
                lemma_sum_insert(pre.balances.seq(), i as int, (actor.value, value));
            }
        }
    }
}

} // verus!
