//! The pair contract: reserves of two tokens, the liquidity-share ledger,
//! cumulative prices, and the five operations over them.
//!
//! Each operation that moves tokens is a short saga: a synchronous phase
//! validates the action, admits it into the transaction cache and resolves
//! the amounts; the runtime then performs the queued transfer calls one by
//! one and reports each outcome; a final phase commits the state change, or
//! compensates the completed legs and reports the error. Local state is only
//! mutated once every external call of the action has resolved — except for
//! the liquidity burn in `remove_liquidity`, which is re-minted if the first
//! outgoing transfer fails (and deliberately not if the second one fails).

use vstd::prelude::*;
use crate::actor::ActorId;
use crate::io::{CachedAction, Error, Event, SwapKind, TransactionKind};
use crate::ledger::Ledger;
use crate::math::{
    self,
    spec_calculate_in_amount,
    spec_calculate_out_amount,
    spec_in_amount,
    spec_out_amount,
};
use crate::tx_manager::{pow2_64, TransactionGuard, TransactionManager};
use crate::u256::{self, pow2_128, pow2_256, spec_sqrt, U256};

verus! {

/// A sub-call id: the transaction id plus the step number, wrapping.
pub open spec fn spec_step_id(tx_id: u64, step: int) -> int {
    (tx_id + step) % pow2_64()
}

/// One queued token-contract call of a saga: move `amount` of `token` from
/// `sender` to `recipient`, tagged with its deterministic sub-call id so a
/// retried action replays the same call rather than issuing a new one.
#[derive(Clone, Copy, PartialEq, Eq, Structural, Debug)]
pub struct TransferRequest {
    pub transaction_id: u64,
    pub token: ActorId,
    pub sender: ActorId,
    pub recipient: ActorId,
    pub amount: u128,
}

/// The pair contract's state.
pub struct Pair {
    /// The Factory that deployed this pair; queried for the fee receiver.
    pub factory: ActorId,
    /// The two fungible-token contracts this pair trades.
    pub token: (ActorId, ActorId),
    /// The recorded amount of each token backing the pool.
    pub reserve: (u128, u128),
    /// Time-weighted cumulative prices, Q128 fixed point, wrapping.
    pub cumulative_price: (U256, U256),
    /// When the reserves and prices were last advanced.
    pub last_block_ts: u64,
    /// The product of the reserves at the last fee settlement; zero while
    /// fee accrual is inactive.
    pub k_last: U256,
    /// The liquidity-share ledger.
    pub ft_state: Ledger,
}

impl Pair {
    pub open spec fn wf(self) -> bool {
        self.ft_state.wf()
    }

    /// The reserves oriented so that `.0` is the swap's input side.
    pub open spec fn spec_swap_reserve(self, kind: SwapKind) -> (u128, u128) {
        match kind {
            SwapKind::AForB => self.reserve,
            SwapKind::BForA => (self.reserve.1, self.reserve.0),
        }
    }

    /// The tokens oriented so that `.0` is the swap's input side.
    pub open spec fn spec_swap_token(self, kind: SwapKind) -> (ActorId, ActorId) {
        match kind {
            SwapKind::AForB => self.token,
            SwapKind::BForA => (self.token.1, self.token.0),
        }
    }

    /// A new pair between `token.0` and `token.1`, deployed by `factory`.
    /// The token identities must be both zero or both nonzero.
    pub fn new(token: (ActorId, ActorId), factory: ActorId) -> (r: Result<Pair, Error>)
        ensures
            match r {
                Err(e) => e == Error::ZeroActorId && (token.0.value == 0) != (token.1.value == 0),
                Ok(p) => {
                    &&& (token.0.value == 0) == (token.1.value == 0)
                    &&& p.wf()
                    &&& p.token == token
                    &&& p.factory == factory
                    &&& p.reserve == (0u128, 0u128)
                    &&& p.last_block_ts == 0
                    &&& p.k_last.val() == 0
                    &&& p.cumulative_price.0.val() == 0 && p.cumulative_price.1.val() == 0
                    &&& p.ft_state.total() == 0
                    &&& forall|a: u64| p.ft_state.balance_val(a) == 0
                },
            },
    {
        if token.0.is_zero() != token.1.is_zero() {
            return Err(Error::ZeroActorId);
        }
        Ok(
            Pair {
                factory,
                token,
                reserve: (0, 0),
                cumulative_price: (U256::zero(), U256::zero()),
                last_block_ts: 0,
                k_last: U256::zero(),
                ft_state: Ledger::new(),
            },
        )
    }

    pub open spec fn spec_check_recipient(self, recipient: ActorId) -> Result<(), Error> {
        if recipient == self.token.0 || recipient == self.token.1 {
            Err(Error::InvalidRecipient)
        } else {
            Ok(())
        }
    }

    /// A swap may not pay out to one of the pair's own token contracts.
    pub fn check_recipient(&self, recipient: ActorId) -> (r: Result<(), Error>)
        ensures
            r == self.spec_check_recipient(recipient),
    {
        if recipient.value == self.token.0.value || recipient.value == self.token.1.value {
            Err(Error::InvalidRecipient)
        } else {
            Ok(())
        }
    }

    /// One accumulator's advance: the Q128 price ratio times the elapsed
    /// time, wrapping at 256 bits.
    pub open spec fn spec_price_delta(num: u128, den: u128, dt: u64) -> int {
        ((num * pow2_128() / (den as int)) * dt) % pow2_256()
    }

    pub open spec fn spec_cp_advance(cp: int, num: u128, den: u128, dt: u64) -> int {
        (cp + Self::spec_price_delta(num, den, dt)) % pow2_256()
    }

    /// How [`Pair::update`] moves the price accumulators from `pre` to
    /// `post`: advanced once per distinct timestamp while both reserves are
    /// nonzero, untouched otherwise.
    pub open spec fn spec_price_advanced(pre: Pair, post: Pair, block_ts: u64) -> bool {
        if block_ts > pre.last_block_ts && pre.reserve.0 != 0 && pre.reserve.1 != 0 {
            let dt = (block_ts - pre.last_block_ts) as u64;
            &&& post.cumulative_price.0.val() == Self::spec_cp_advance(
                pre.cumulative_price.0.val(),
                pre.reserve.1,
                pre.reserve.0,
                dt,
            )
            &&& post.cumulative_price.1.val() == Self::spec_cp_advance(
                pre.cumulative_price.1.val(),
                pre.reserve.0,
                pre.reserve.1,
                dt,
            )
        } else {
            post.cumulative_price == pre.cumulative_price
        }
    }

    /// Advances the cumulative prices for the elapsed time, then overwrites
    /// the reserves and the timestamp.
    pub fn update(&mut self, balance: (u128, u128), block_ts: u64)
        requires
            old(self).wf(),
            block_ts >= old(self).last_block_ts,
        ensures
            final(self).wf(),
            final(self).reserve == balance,
            final(self).last_block_ts == block_ts,
            final(self).factory == old(self).factory,
            final(self).token == old(self).token,
            final(self).k_last == old(self).k_last,
            final(self).ft_state == old(self).ft_state,
            Self::spec_price_advanced(*old(self), *final(self), block_ts),
    {
        let time_elapsed = block_ts - self.last_block_ts;
        if time_elapsed > 0 && self.reserve.0 != 0 && self.reserve.1 != 0 {
            let ratio0 = u256::div(U256::shl_128(self.reserve.1), U256::from_u128(self.reserve.0));
            let delta0 = u256::wrapping_mul_u64(ratio0, time_elapsed);
            let ratio1 = u256::div(U256::shl_128(self.reserve.0), U256::from_u128(self.reserve.1));
            let delta1 = u256::wrapping_mul_u64(ratio1, time_elapsed);
            proof {
                U256::lemma_val_bound(self.cumulative_price.0);
                U256::lemma_val_bound(self.cumulative_price.1);
                U256::lemma_val_bound(delta0);
                U256::lemma_val_bound(delta1);
                lemma_mod_once(self.cumulative_price.0.val() + delta0.val(), pow2_256());
                lemma_mod_once(self.cumulative_price.1.val() + delta1.val(), pow2_256());
            }
            let cp0 = self.cumulative_price.0.wrapping_add(delta0);
            let cp1 = self.cumulative_price.1.wrapping_add(delta1);
            self.cumulative_price = (cp0, cp1);
        }
        self.reserve = balance;
        self.last_block_ts = block_ts;
    }

    /// What the protocol-fee computation yields for a given factory reply:
    /// whether the fee is on, its receiver, and the fee share of the pool's
    /// growth since the last settlement.
    pub open spec fn spec_calculate_fee(
        reserve: (u128, u128),
        k_last_val: int,
        total: int,
        fee_reply: Option<ActorId>,
    ) -> Result<(bool, ActorId, int), Error> {
        match fee_reply {
            None => Err(Error::FeeToGettingFailed),
            Some(receiver) => {
                let fee_on = receiver.value != 0;
                if fee_on && k_last_val != 0 {
                    let root_k = spec_sqrt(reserve.0 * reserve.1);
                    let root_k_last = spec_sqrt(k_last_val);
                    if root_k > root_k_last {
                        if total * (root_k - root_k_last) >= pow2_256() {
                            Err(Error::Overflow)
                        } else {
                            Ok(
                                (
                                    true,
                                    receiver,
                                    total * (root_k - root_k_last) / (root_k * 5 + root_k_last),
                                ),
                            )
                        }
                    } else {
                        Ok((true, receiver, 0))
                    }
                } else {
                    Ok((fee_on, receiver, 0))
                }
            },
        }
    }

    /// The protocol-fee computation, applied to the Factory's fee-receiver
    /// reply (`None` when the query failed or was answered unexpectedly).
    pub fn calculate_fee(&self, fee_reply: Option<ActorId>) -> (r: Result<
        (bool, ActorId, U256),
        Error,
    >)
        requires
            self.wf(),
        ensures
            match r {
                Ok(t) => Self::spec_calculate_fee(
                    self.reserve,
                    self.k_last.val(),
                    self.ft_state.total(),
                    fee_reply,
                ) == Ok::<(bool, ActorId, int), Error>((t.0, t.1, t.2.val())),
                Err(e) => Self::spec_calculate_fee(
                    self.reserve,
                    self.k_last.val(),
                    self.ft_state.total(),
                    fee_reply,
                ) == Err::<(bool, ActorId, int), Error>(e),
            },
    {
        let fee_receiver = match fee_reply {
            None => {
                return Err(Error::FeeToGettingFailed);
            },
            Some(receiver) => receiver,
        };
        let is_fee_on = !fee_receiver.is_zero();
        let mut fee = U256::zero();
        if is_fee_on && !self.k_last.is_zero() {
            let k_now = u256::mul_u128(self.reserve.0, self.reserve.1);
            let root_k = u256::sqrt(k_now);
            let root_k_last = u256::sqrt(self.k_last);
            proof {
                u256::lemma_sqrt_unique(root_k as int, k_now.val());
                u256::lemma_sqrt_unique(root_k_last as int, self.k_last.val());
            }
            if root_k > root_k_last {
                let numerator = match u256::checked_mul_u128(
                    self.ft_state.total_supply,
                    root_k - root_k_last,
                ) {
                    None => {
                        return Err(Error::Overflow);
                    },
                    Some(n) => n,
                };
                let denominator = u256::mul_u128(root_k, 5).add(U256::from_u128(root_k_last));
                fee = u256::div(numerator, denominator);
            }
        }
        Ok((is_fee_on, fee_receiver, fee))
    }

    /// Sets the reserves equal to the actual token balances and advances the
    /// price accumulators.
    pub fn sync(&mut self, balance: (u128, u128), block_ts: u64) -> (r: Event)
        requires
            old(self).wf(),
            block_ts >= old(self).last_block_ts,
        ensures
            final(self).wf(),
            final(self).reserve == balance,
            final(self).last_block_ts == block_ts,
            final(self).factory == old(self).factory,
            final(self).token == old(self).token,
            final(self).k_last == old(self).k_last,
            final(self).ft_state == old(self).ft_state,
            Self::spec_price_advanced(*old(self), *final(self), block_ts),
            r == (Event::Sync { reserve_a: balance.0, reserve_b: balance.1 }),
    {
        self.update(balance, block_ts);
        Event::Sync { reserve_a: balance.0, reserve_b: balance.1 }
    }

    /// The contract state as exposed to state-introspection queries: every
    /// field of the pair, plus a snapshot of the cached transactions.
    pub fn state(&self, manager: &TransactionManager) -> (r: crate::io::State)
        ensures
            r.factory == self.factory,
            r.token == self.token,
            r.reserve == self.reserve,
            r.cumulative_price == self.cumulative_price,
            r.last_block_ts == self.last_block_ts,
            r.k_last == self.k_last,
            r.ft_state.balances.seq() == self.ft_state.balances.seq(),
            r.ft_state.total_supply == self.ft_state.total_supply,
            r.cached_actions@.len() == manager.actors_for_tx.seq().len(),
            forall|i: int|
                0 <= i < r.cached_actions@.len() ==> r.cached_actions@[i] == (
                    ActorId { value: manager.actors_for_tx.seq()[i].0 },
                    manager.actors_for_tx.seq()[i].1.1,
                ),
    {
        crate::io::State {
            factory: self.factory,
            token: self.token,
            reserve: self.reserve,
            cumulative_price: self.cumulative_price,
            last_block_ts: self.last_block_ts,
            k_last: self.k_last,
            ft_state: self.ft_state.snapshot(),
            cached_actions: manager.cached_actions(),
        }
    }

    /// Transfers liquidity shares from the caller; fails with
    /// `InsufficientAmount` exactly when the caller's balance is too small.
    pub fn transfer(&mut self, msg_source: ActorId, to: ActorId, amount: U256) -> (r: Result<
        Event,
        Error,
    >)
        requires
            old(self).wf(),
        ensures
            final(self).wf(),
            final(self).factory == old(self).factory,
            final(self).token == old(self).token,
            final(self).reserve == old(self).reserve,
            final(self).cumulative_price == old(self).cumulative_price,
            final(self).last_block_ts == old(self).last_block_ts,
            final(self).k_last == old(self).k_last,
            final(self).ft_state.total() == old(self).ft_state.total(),
            match r {
                Err(e) => {
                    &&& e == Error::InsufficientAmount
                    &&& amount.val() > old(self).ft_state.balance_val(msg_source.value)
                    &&& final(self).ft_state == old(self).ft_state
                },
                Ok(event) => {
                    &&& amount.val() <= old(self).ft_state.balance_val(msg_source.value)
                    &&& event == (Event::Transfer { from: msg_source, to, amount })
                    &&& msg_source.value == to.value ==> final(self).ft_state.balance_val(
                        msg_source.value,
                    ) == old(self).ft_state.balance_val(msg_source.value)
                    &&& msg_source.value != to.value ==> final(self).ft_state.balance_val(
                        msg_source.value,
                    ) == old(self).ft_state.balance_val(msg_source.value) - amount.val()
                        && final(self).ft_state.balance_val(to.value)
                        == old(self).ft_state.balance_val(to.value) + amount.val()
                    &&& forall|a: u64|
                        a != msg_source.value && a != to.value ==> final(self).ft_state.balance_val(
                            a,
                        ) == old(self).ft_state.balance_val(a)
                },
            },
    {
        if self.ft_state.transfer(msg_source, to, amount) {
            Ok(Event::Transfer { from: msg_source, to, amount })
        } else {
            Err(Error::InsufficientAmount)
        }
    }
}

pub open spec fn spec_check_deadline(block_ts: u64, deadline: u64) -> Result<(), Error> {
    if block_ts > deadline {
        Err(Error::DeadlineExceeded)
    } else {
        Ok(())
    }
}

/// An action whose deadline has passed is rejected.
pub fn check_deadline(block_ts: u64, deadline: u64) -> (r: Result<(), Error>)
    ensures
        r == spec_check_deadline(block_ts, deadline),
{
    if block_ts > deadline {
        Err(Error::DeadlineExceeded)
    } else {
        Ok(())
    }
}

/// A swap admitted into the transaction cache, its amounts resolved and its
/// two transfer legs queued; the runtime performs them and reports back.
pub struct SwapPending {
    pub guard: TransactionGuard,
    pub msg_source: ActorId,
    pub kind: SwapKind,
    pub in_amount: u128,
    pub out_amount: u128,
    pub to: ActorId,
    /// Input leg: the caller pays the pair.
    pub transfer_in: TransferRequest,
    /// Output leg: the pair pays the recipient.
    pub transfer_out: TransferRequest,
}

impl Pair {
    /// The pending swap's amounts fit the current reserves: they were priced
    /// by one of the two fee formulas, the output leaves the output reserve
    /// positive, and the input does not overflow the input reserve.
    pub open spec fn swap_pending_ok(self, p: SwapPending) -> bool {
        let rin = self.spec_swap_reserve(p.kind).0;
        let rout = self.spec_swap_reserve(p.kind).1;
        &&& rin > 0 && rout > 0
        &&& p.in_amount > 0
        &&& p.out_amount < rout
        &&& rin + p.in_amount <= u128::MAX
        &&& (p.out_amount == spec_out_amount(p.in_amount, rin, rout) || (p.out_amount > 0
            && p.in_amount == spec_in_amount(p.out_amount, rin, rout)))
    }

    /// The swap-oriented tokens and reserves.
    pub fn swap_pattern(&self, kind: SwapKind) -> (r: ((ActorId, ActorId), (u128, u128)))
        ensures
            r.0 == self.spec_swap_token(kind),
            r.1 == self.spec_swap_reserve(kind),
    {
        match kind {
            SwapKind::AForB => (self.token, self.reserve),
            SwapKind::BForA => ((self.token.1, self.token.0), (self.reserve.1, self.reserve.0)),
        }
    }

    /// What a swap of an exact input decides once admitted: the output
    /// amount, or the error rejecting the action.
    pub open spec fn spec_swap_exact_decision(
        self,
        block_ts: u64,
        deadline: u64,
        amount_in: u128,
        min_out_amount: u128,
        to: ActorId,
        kind: SwapKind,
    ) -> Result<u128, Error> {
        if block_ts > deadline {
            Err(Error::DeadlineExceeded)
        } else if self.spec_check_recipient(to) is Err {
            Err(Error::InvalidRecipient)
        } else {
            match spec_calculate_out_amount(amount_in, self.spec_swap_reserve(kind)) {
                Err(e) => Err(e),
                Ok(out) => if out < min_out_amount {
                    Err(Error::InsufficientLatterAmount)
                } else if self.spec_swap_reserve(kind).0 + amount_in > u128::MAX {
                    Err(Error::Overflow)
                } else {
                    Ok(out)
                },
            }
        }
    }

    /// Swaps an exact amount of input tokens for as many output tokens as
    /// possible. Admits the action first; on any rejection after admission
    /// the caller's cache entry is purged again.
    pub fn swap_exact_tokens_for(
        &self,
        manager: &mut TransactionManager,
        kind: TransactionKind,
        msg_source: ActorId,
        program_id: ActorId,
        block_ts: u64,
        amount_in: u128,
        min_out_amount: u128,
        to: ActorId,
        deadline: u64,
        swap_kind: SwapKind,
    ) -> (r: Result<SwapPending, Error>)
        requires
            self.wf(),
            old(manager).wf(),
        ensures
            final(manager).wf(),
            match old(manager).spec_admit(kind, msg_source, CachedAction::Swap(amount_in)) {
                Err(e) => r == Err::<SwapPending, Error>(Error::TxCacheError(e)) && *final(manager)
                    == *old(manager),
                Ok(tx_id) => match self.spec_swap_exact_decision(
                    block_ts,
                    deadline,
                    amount_in,
                    min_out_amount,
                    to,
                    swap_kind,
                ) {
                    Err(e) => r == Err::<SwapPending, Error>(e) && !final(manager).actors_map().contains_key(msg_source.value),
                    Ok(out) => TransactionManager::spec_admitted(
                        *old(manager),
                        *final(manager),
                        kind,
                        msg_source,
                        CachedAction::Swap(amount_in),
                    ) && (r matches Ok(p) && {
                        &&& p.guard.tx_id == tx_id && p.guard.msg_source == msg_source
                            && p.guard.step == 2
                        &&& p.msg_source == msg_source && p.to == to && p.kind == swap_kind
                        &&& p.in_amount == amount_in && p.out_amount == out
                        &&& p.transfer_in == (TransferRequest {
                            transaction_id: (spec_step_id(tx_id, 0)) as u64,
                            token: self.spec_swap_token(swap_kind).0,
                            sender: msg_source,
                            recipient: program_id,
                            amount: amount_in,
                        })
                        &&& p.transfer_out == (TransferRequest {
                            transaction_id: (spec_step_id(tx_id, 1)) as u64,
                            token: self.spec_swap_token(swap_kind).1,
                            sender: program_id,
                            recipient: to,
                            amount: out,
                        })
                        &&& self.swap_pending_ok(p)
                    }),
                },
            },
    {
        let fingerprint = CachedAction::Swap(amount_in);
        let mut guard = match manager.asquire_transaction(kind, msg_source, fingerprint) {
            Err(e) => {
                return Err(Error::from_cache(e));
            },
            Ok(g) => g,
        };
        if let Err(e) = check_deadline(block_ts, deadline) {
            manager.release(guard);
            return Err(e);
        }
        if let Err(e) = self.check_recipient(to) {
            manager.release(guard);
            return Err(e);
        }
        let (tokens, reserve) = self.swap_pattern(swap_kind);
        let out_amount = match math::calculate_out_amount(amount_in, reserve) {
            Err(e) => {
                manager.release(guard);
                return Err(e);
            },
            Ok(out) => out,
        };
        if out_amount < min_out_amount {
            manager.release(guard);
            return Err(Error::InsufficientLatterAmount);
        }
        if amount_in > u128::MAX - reserve.0 {
            manager.release(guard);
            return Err(Error::Overflow);
        }
        proof {
            math::lemma_out_amount_in_range(amount_in, reserve);
        }
        let id0 = issue_step(&mut guard);
        let id1 = issue_step(&mut guard);
        let transfer_in = TransferRequest {
            transaction_id: id0,
            token: tokens.0,
            sender: msg_source,
            recipient: program_id,
            amount: amount_in,
        };
        let transfer_out = TransferRequest {
            transaction_id: id1,
            token: tokens.1,
            sender: program_id,
            recipient: to,
            amount: out_amount,
        };
        Ok(
            SwapPending {
                guard,
                msg_source,
                kind: swap_kind,
                in_amount: amount_in,
                out_amount,
                to,
                transfer_in,
                transfer_out,
            },
        )
    }

    /// What a swap for an exact output decides before admission: the input
    /// amount it will cost, or the error rejecting the action.
    pub open spec fn spec_swap_exact_out_decision(
        self,
        block_ts: u64,
        deadline: u64,
        amount_out: u128,
        to: ActorId,
        kind: SwapKind,
    ) -> Result<u128, Error> {
        if block_ts > deadline {
            Err(Error::DeadlineExceeded)
        } else if self.spec_check_recipient(to) is Err {
            Err(Error::InvalidRecipient)
        } else {
            spec_calculate_in_amount(amount_out, self.spec_swap_reserve(kind))
        }
    }

    /// Swaps as few input tokens as possible for an exact amount of output
    /// tokens. The fingerprint is the resolved input amount, so it is
    /// computed before admission.
    pub fn swap_tokens_for_exact(
        &self,
        manager: &mut TransactionManager,
        kind: TransactionKind,
        msg_source: ActorId,
        program_id: ActorId,
        block_ts: u64,
        amount_out: u128,
        max_in_amount: u128,
        to: ActorId,
        deadline: u64,
        swap_kind: SwapKind,
    ) -> (r: Result<SwapPending, Error>)
        requires
            self.wf(),
            old(manager).wf(),
        ensures
            final(manager).wf(),
            match self.spec_swap_exact_out_decision(block_ts, deadline, amount_out, to, swap_kind) {
                Err(e) => r == Err::<SwapPending, Error>(e) && *final(manager) == *old(manager),
                Ok(in_amt) => match old(manager).spec_admit(
                    kind,
                    msg_source,
                    CachedAction::Swap(in_amt),
                ) {
                    Err(e) => r == Err::<SwapPending, Error>(Error::TxCacheError(e)) && *final(manager) == *old(manager),
                    Ok(tx_id) => if in_amt > max_in_amount {
                        r == Err::<SwapPending, Error>(Error::InsufficientFormerAmount) && !final(manager).actors_map().contains_key(msg_source.value)
                    } else if self.spec_swap_reserve(swap_kind).0 + in_amt > u128::MAX {
                        r == Err::<SwapPending, Error>(Error::Overflow) && !final(manager).actors_map().contains_key(msg_source.value)
                    } else {
                        TransactionManager::spec_admitted(
                            *old(manager),
                            *final(manager),
                            kind,
                            msg_source,
                            CachedAction::Swap(in_amt),
                        ) && (r matches Ok(p) && {
                            &&& p.guard.tx_id == tx_id && p.guard.msg_source == msg_source
                                && p.guard.step == 2
                            &&& p.msg_source == msg_source && p.to == to && p.kind == swap_kind
                            &&& p.in_amount == in_amt && p.out_amount == amount_out
                            &&& p.transfer_in == (TransferRequest {
                                transaction_id: (spec_step_id(tx_id, 0)) as u64,
                                token: self.spec_swap_token(swap_kind).0,
                                sender: msg_source,
                                recipient: program_id,
                                amount: in_amt,
                            })
                            &&& p.transfer_out == (TransferRequest {
                                transaction_id: (spec_step_id(tx_id, 1)) as u64,
                                token: self.spec_swap_token(swap_kind).1,
                                sender: program_id,
                                recipient: to,
                                amount: amount_out,
                            })
                            &&& self.swap_pending_ok(p)
                        })
                    },
                },
            },
    {
        if let Err(e) = check_deadline(block_ts, deadline) {
            return Err(e);
        }
        if let Err(e) = self.check_recipient(to) {
            return Err(e);
        }
        let (tokens, reserve) = self.swap_pattern(swap_kind);
        let in_amount = match math::calculate_in_amount(amount_out, reserve) {
            Err(e) => {
                return Err(e);
            },
            Ok(amount) => amount,
        };
        proof {
            math::lemma_in_amount_positive(amount_out, reserve);
        }
        let mut guard = match manager.asquire_transaction(
            kind,
            msg_source,
            CachedAction::Swap(in_amount),
        ) {
            Err(e) => {
                return Err(Error::from_cache(e));
            },
            Ok(g) => g,
        };
        if in_amount > max_in_amount {
            manager.release(guard);
            return Err(Error::InsufficientFormerAmount);
        }
        if in_amount > u128::MAX - reserve.0 {
            manager.release(guard);
            return Err(Error::Overflow);
        }
        let id0 = issue_step(&mut guard);
        let id1 = issue_step(&mut guard);
        let transfer_in = TransferRequest {
            transaction_id: id0,
            token: tokens.0,
            sender: msg_source,
            recipient: program_id,
            amount: in_amount,
        };
        let transfer_out = TransferRequest {
            transaction_id: id1,
            token: tokens.1,
            sender: program_id,
            recipient: to,
            amount: amount_out,
        };
        Ok(
            SwapPending {
                guard,
                msg_source,
                kind: swap_kind,
                in_amount,
                out_amount: amount_out,
                to,
                transfer_in,
                transfer_out,
            },
        )
    }

    /// A leg of the swap failed and any completed leg has been compensated:
    /// purges the cache entry and reports the failure.
    pub fn swap_failed(manager: &mut TransactionManager, pending: SwapPending) -> (r: Error)
        requires
            old(manager).wf(),
        ensures
            final(manager).wf(),
            r == Error::TransferFailed,
            final(manager).txs_map() == old(manager).txs_map().remove(pending.guard.tx_id),
            final(manager).actors_map() == old(manager).actors_map().remove(
                pending.guard.msg_source.value,
            ),
            final(manager).nonce() == old(manager).nonce(),
            !final(manager).actors_map().contains_key(pending.guard.msg_source.value),
    {
        manager.release(pending.guard);
        Error::TransferFailed
    }

    /// The output leg failed after the input leg succeeded: the compensating
    /// transfer returning the input to the caller.
    pub fn swap_compensation(pending: &mut SwapPending) -> (r: TransferRequest)
        requires
            old(pending).guard.step < 255,
        ensures
            final(pending).guard.tx_id == old(pending).guard.tx_id,
            final(pending).guard.msg_source == old(pending).guard.msg_source,
            final(pending).guard.step == old(pending).guard.step + 1,
            final(pending).transfer_in == old(pending).transfer_in,
            final(pending).msg_source == old(pending).msg_source,
            r == (TransferRequest {
                transaction_id: (spec_step_id(
                    old(pending).guard.tx_id,
                    old(pending).guard.step as int,
                )) as u64,
                token: old(pending).transfer_in.token,
                sender: old(pending).transfer_in.recipient,
                recipient: old(pending).msg_source,
                amount: old(pending).transfer_in.amount,
            }),
    {
        let id = issue_step(&mut pending.guard);
        TransferRequest {
            transaction_id: id,
            token: pending.transfer_in.token,
            sender: pending.transfer_in.recipient,
            recipient: pending.msg_source,
            amount: pending.transfer_in.amount,
        }
    }

    /// Both legs succeeded: moves the reserves along the swap direction,
    /// advances the prices, purges the cache entry and reports the event.
    /// The reserve product never decreases.
    pub fn swap_commit(
        &mut self,
        manager: &mut TransactionManager,
        pending: SwapPending,
        block_ts: u64,
    ) -> (r: Event)
        requires
            old(self).wf(),
            old(manager).wf(),
            old(self).swap_pending_ok(pending),
            block_ts >= old(self).last_block_ts,
        ensures
            final(self).wf(),
            final(manager).wf(),
            final(self).factory == old(self).factory,
            final(self).token == old(self).token,
            final(self).k_last == old(self).k_last,
            final(self).ft_state == old(self).ft_state,
            final(self).last_block_ts == block_ts,
            final(self).reserve == (match pending.kind {
                SwapKind::AForB => (
                    (old(self).reserve.0 + pending.in_amount) as u128,
                    (old(self).reserve.1 - pending.out_amount) as u128,
                ),
                SwapKind::BForA => (
                    (old(self).reserve.0 - pending.out_amount) as u128,
                    (old(self).reserve.1 + pending.in_amount) as u128,
                ),
            }),
            Self::spec_price_advanced(*old(self), *final(self), block_ts),
            final(self).reserve.0 * final(self).reserve.1 >= old(self).reserve.0 * old(self).reserve.1,
            r == (Event::Swap {
                sender: pending.msg_source,
                in_amount: pending.in_amount,
                out_amount: pending.out_amount,
                to: pending.to,
                kind: pending.kind,
            }),
            final(manager).txs_map() == old(manager).txs_map().remove(pending.guard.tx_id),
            final(manager).actors_map() == old(manager).actors_map().remove(
                pending.guard.msg_source.value,
            ),
            final(manager).nonce() == old(manager).nonce(),
    {
        let (_, reserve) = self.swap_pattern(pending.kind);
        proof {
            if pending.out_amount == spec_out_amount(pending.in_amount, reserve.0, reserve.1) {
                math::lemma_swap_preserves_product(pending.in_amount, reserve, pending.out_amount);
            } else {
                math::lemma_swap_preserves_product_exact_out(
                    pending.out_amount,
                    reserve,
                    pending.in_amount,
                );
            }
            if pending.kind is BForA {
                vstd::arithmetic::mul::lemma_mul_is_commutative(
                    self.reserve.1 as int,
                    self.reserve.0 as int,
                );
                vstd::arithmetic::mul::lemma_mul_is_commutative(
                    self.reserve.1 + pending.in_amount,
                    self.reserve.0 - pending.out_amount,
                );
            }
        }
        let new_in = reserve.0 + pending.in_amount;
        let new_out = reserve.1 - pending.out_amount;
        let balance = match pending.kind {
            SwapKind::AForB => (new_in, new_out),
            SwapKind::BForA => (new_out, new_in),
        };
        self.update(balance, block_ts);
        manager.release(pending.guard);
        Event::Swap {
            sender: pending.msg_source,
            in_amount: pending.in_amount,
            out_amount: pending.out_amount,
            to: pending.to,
            kind: pending.kind,
        }
    }
}

/// An add-liquidity action admitted into the transaction cache, its actual
/// amounts resolved against the reserves.
pub struct AddLiquidityPending {
    pub guard: TransactionGuard,
    pub msg_source: ActorId,
    pub to: ActorId,
    /// The resolved deposit amounts; also the admission fingerprint.
    pub amount: (u128, u128),
    /// The reserves after the deposit.
    pub balance: (u128, u128),
}

/// An add-liquidity action with the fee settled and the liquidity amount
/// computed, its two deposit legs queued.
pub struct AddLiquidityReady {
    pub guard: TransactionGuard,
    pub msg_source: ActorId,
    pub to: ActorId,
    pub amount: (u128, u128),
    pub balance: (u128, u128),
    /// The liquidity to mint to `to`.
    pub liquidity: U256,
    /// Whether this is the pool's first mint, which locks the minimum
    /// liquidity at the zero identity.
    pub first_mint: bool,
    pub is_fee_on: bool,
    pub fee_receiver: ActorId,
    pub fee: U256,
    /// First leg: the caller deposits token A.
    pub transfer_a: TransferRequest,
    /// Second leg: the caller deposits token B.
    pub transfer_b: TransferRequest,
}

impl Pair {
    /// The resolved deposit amounts: the caller's desired amounts on the
    /// first deposit, otherwise the proportional amounts against the
    /// reserves, bounded below by the caller's minimums.
    pub open spec fn spec_add_amounts(self, desired: (u128, u128), min: (u128, u128)) -> Result<
        (u128, u128),
        Error,
    > {
        if self.reserve == (0u128, 0u128) {
            Ok(desired)
        } else {
            match math::spec_quote(desired.0, self.reserve) {
                Err(e) => Err(e),
                Ok(optimal_b) => if optimal_b <= desired.1 {
                    if optimal_b < min.1 {
                        Err(Error::InsufficientLatterAmount)
                    } else {
                        Ok((desired.0, optimal_b))
                    }
                } else {
                    match math::spec_quote_reserve_unchecked(
                        desired.1,
                        (self.reserve.1, self.reserve.0),
                    ) {
                        Err(e) => Err(e),
                        Ok(optimal_a) => if optimal_a < min.0 {
                            Err(Error::InsufficientFormerAmount)
                        } else {
                            Ok((optimal_a, desired.1))
                        },
                    }
                },
            }
        }
    }

    /// The decision of the admission phase: the deadline check, then the
    /// amount resolution.
    pub open spec fn spec_add_liquidity_decision(
        self,
        block_ts: u64,
        deadline: u64,
        desired: (u128, u128),
        min: (u128, u128),
    ) -> Result<(u128, u128), Error> {
        if block_ts > deadline {
            Err(Error::DeadlineExceeded)
        } else {
            self.spec_add_amounts(desired, min)
        }
    }

    /// The pending deposit matches the current reserves.
    pub open spec fn add_pending_ok(self, p: AddLiquidityPending) -> bool {
        &&& p.balance.0 == self.reserve.0 + p.amount.0
        &&& p.balance.1 == self.reserve.1 + p.amount.1
        &&& p.guard.step == 0
        &&& p.guard.msg_source == p.msg_source
    }

    /// Adds liquidity: resolves the actual deposit against the reserves and
    /// the caller's bounds, admits the action under the fingerprint of the
    /// resolved amounts, and checks the new balances fit. On any rejection
    /// after admission the caller's cache entry is purged again.
    pub fn add_liquidity(
        &self,
        manager: &mut TransactionManager,
        kind: TransactionKind,
        msg_source: ActorId,
        block_ts: u64,
        desired_amount: (u128, u128),
        min_amount: (u128, u128),
        to: ActorId,
        deadline: u64,
    ) -> (r: Result<AddLiquidityPending, Error>)
        requires
            self.wf(),
            old(manager).wf(),
        ensures
            final(manager).wf(),
            match self.spec_add_liquidity_decision(block_ts, deadline, desired_amount, min_amount) {
                Err(e) => r == Err::<AddLiquidityPending, Error>(e) && *final(manager) == *old(manager),
                Ok(amount) => match old(manager).spec_admit(
                    kind,
                    msg_source,
                    CachedAction::AddLiquidity(amount.0, amount.1),
                ) {
                    Err(e) => r == Err::<AddLiquidityPending, Error>(Error::TxCacheError(e))
                        && *final(manager) == *old(manager),
                    Ok(tx_id) => if self.reserve.0 + amount.0 > u128::MAX || self.reserve.1
                        + amount.1 > u128::MAX {
                        r == Err::<AddLiquidityPending, Error>(Error::Overflow) && !final(manager).actors_map().contains_key(msg_source.value)
                    } else {
                        TransactionManager::spec_admitted(
                            *old(manager),
                            *final(manager),
                            kind,
                            msg_source,
                            CachedAction::AddLiquidity(amount.0, amount.1),
                        ) && (r matches Ok(p) && {
                            &&& p.guard.tx_id == tx_id && p.guard.msg_source == msg_source
                            &&& p.msg_source == msg_source && p.to == to
                            &&& p.amount == amount
                            &&& self.add_pending_ok(p)
                        })
                    },
                },
            },
    {
        if let Err(e) = check_deadline(block_ts, deadline) {
            return Err(e);
        }
        let amount = if self.reserve.0 == 0 && self.reserve.1 == 0 {
            desired_amount
        } else {
            let optimal_b = match math::quote(desired_amount.0, self.reserve) {
                Err(e) => {
                    return Err(e);
                },
                Ok(b) => b,
            };
            if optimal_b <= desired_amount.1 {
                if optimal_b < min_amount.1 {
                    return Err(Error::InsufficientLatterAmount);
                }
                (desired_amount.0, optimal_b)
            } else {
                let optimal_a = match math::quote_reserve_unchecked(
                    desired_amount.1,
                    (self.reserve.1, self.reserve.0),
                ) {
                    Err(e) => {
                        return Err(e);
                    },
                    Ok(a) => a,
                };
                if optimal_a < min_amount.0 {
                    return Err(Error::InsufficientFormerAmount);
                }
                (optimal_a, desired_amount.1)
            }
        };
        let guard = match manager.asquire_transaction(
            kind,
            msg_source,
            CachedAction::AddLiquidity(amount.0, amount.1),
        ) {
            Err(e) => {
                return Err(Error::from_cache(e));
            },
            Ok(g) => g,
        };
        if amount.0 > u128::MAX - self.reserve.0 || amount.1 > u128::MAX - self.reserve.1 {
            manager.release(guard);
            return Err(Error::Overflow);
        }
        let balance = (self.reserve.0 + amount.0, self.reserve.1 + amount.1);
        Ok(AddLiquidityPending { guard, msg_source, to, amount, balance })
    }

    /// The liquidity granted for a deposit, once the fee receiver is known:
    /// the square root of the deposit product on the first mint (less the
    /// locked minimum), otherwise the deposit's proportional share of the
    /// fee-adjusted supply.
    pub open spec fn spec_add_liquidity_plan(
        self,
        fee_reply: Option<ActorId>,
        amount: (u128, u128),
    ) -> Result<(bool, ActorId, int, int), Error> {
        let total = self.ft_state.total();
        match Self::spec_calculate_fee(self.reserve, self.k_last.val(), total, fee_reply) {
            Err(e) => Err(e),
            Ok(t) => {
                let fee = t.2;
                if total == 0 {
                    let root = spec_sqrt(amount.0 * amount.1);
                    if root < 1000 {
                        Err(Error::InsufficientAmount)
                    } else if root == 1000 {
                        Err(Error::InsufficientLiquidity)
                    } else {
                        Ok((t.0, t.1, fee, root - 1000))
                    }
                } else if self.reserve.0 == 0 || self.reserve.1 == 0 {
                    Err(Error::InsufficientLiquidity)
                } else if total + fee >= pow2_256() {
                    Err(Error::Overflow)
                } else {
                    let supply = total + fee;
                    if amount.0 * supply >= pow2_256() || amount.1 * supply >= pow2_256() {
                        Err(Error::Overflow)
                    } else {
                        let la = amount.0 * supply / (self.reserve.0 as int);
                        let lb = amount.1 * supply / (self.reserve.1 as int);
                        let liquidity = if la <= lb {
                            la
                        } else {
                            lb
                        };
                        if supply + liquidity >= pow2_256() {
                            Err(Error::Overflow)
                        } else if liquidity == 0 {
                            Err(Error::InsufficientLiquidity)
                        } else {
                            Ok((t.0, t.1, fee, liquidity))
                        }
                    }
                }
            },
        }
    }

    /// The planned mints never overflow the supply.
    pub open spec fn add_ready_ok(self, p: AddLiquidityReady) -> bool {
        &&& p.first_mint == (self.ft_state.total() == 0)
        &&& p.liquidity.val() > 0
        &&& p.balance.0 == self.reserve.0 + p.amount.0
        &&& p.balance.1 == self.reserve.1 + p.amount.1
        &&& self.ft_state.total() + (if p.first_mint {
            1000int
        } else {
            p.fee.val()
        }) + p.liquidity.val() < pow2_256()
    }

    /// Settles the protocol fee against the factory's reply and computes the
    /// liquidity to mint; queues the two deposit legs. On an error the
    /// caller's cache entry is purged.
    pub fn add_liquidity_with_fee(
        &self,
        manager: &mut TransactionManager,
        pending: AddLiquidityPending,
        fee_reply: Option<ActorId>,
        program_id: ActorId,
    ) -> (r: Result<AddLiquidityReady, Error>)
        requires
            self.wf(),
            old(manager).wf(),
            self.add_pending_ok(pending),
        ensures
            final(manager).wf(),
            match self.spec_add_liquidity_plan(fee_reply, pending.amount) {
                Err(e) => r == Err::<AddLiquidityReady, Error>(e) && !final(manager).actors_map().contains_key(pending.msg_source.value) && final(manager).nonce()
                    == old(manager).nonce(),
                Ok(plan) => *final(manager) == *old(manager) && (r matches Ok(p) && {
                    &&& p.guard.tx_id == pending.guard.tx_id && p.guard.msg_source
                        == pending.guard.msg_source && p.guard.step == 2
                    &&& p.msg_source == pending.msg_source && p.to == pending.to
                    &&& p.amount == pending.amount && p.balance == pending.balance
                    &&& p.is_fee_on == plan.0 && p.fee_receiver == plan.1
                    &&& p.fee.val() == plan.2 && p.liquidity.val() == plan.3
                    &&& p.transfer_a == (TransferRequest {
                        transaction_id: (spec_step_id(pending.guard.tx_id, 0)) as u64,
                        token: self.token.0,
                        sender: pending.msg_source,
                        recipient: program_id,
                        amount: pending.amount.0,
                    })
                    &&& p.transfer_b == (TransferRequest {
                        transaction_id: (spec_step_id(pending.guard.tx_id, 1)) as u64,
                        token: self.token.1,
                        sender: pending.msg_source,
                        recipient: program_id,
                        amount: pending.amount.1,
                    })
                    &&& self.add_ready_ok(p)
                }),
            },
    {
        let fee_parts = match self.calculate_fee(fee_reply) {
            Err(e) => {
                manager.release(pending.guard);
                return Err(e);
            },
            Ok(t) => t,
        };
        let (is_fee_on, fee_receiver, fee) = fee_parts;
        let total = self.ft_state.total_supply;
        let mut guard = pending.guard;
        if !total.is_zero() && (self.reserve.0 == 0 || self.reserve.1 == 0) {
            // Supply without reserves: the pool was drained by a sync to
            // empty balances, and no deposit share is defined against it.
            manager.release(guard);
            return Err(Error::InsufficientLiquidity);
        }
        let (liquidity, first_mint) = if total.is_zero() {
            let product = u256::mul_u128(pending.amount.0, pending.amount.1);
            let root = u256::sqrt(product);
            proof {
                u256::lemma_sqrt_unique(root as int, product.val());
            }
            if root < 1000 {
                manager.release(guard);
                return Err(Error::InsufficientAmount);
            }
            if root == 1000 {
                manager.release(guard);
                return Err(Error::InsufficientLiquidity);
            }
            (U256::from_u128(root - 1000), true)
        } else {
            let supply = match total.checked_add(fee) {
                None => {
                    manager.release(guard);
                    return Err(Error::Overflow);
                },
                Some(t) => t,
            };
            proof {
                vstd::arithmetic::mul::lemma_mul_is_commutative(
                    supply.val(),
                    pending.amount.0 as int,
                );
                vstd::arithmetic::mul::lemma_mul_is_commutative(
                    supply.val(),
                    pending.amount.1 as int,
                );
            }
            let numerator_a = match u256::checked_mul_u128(supply, pending.amount.0) {
                None => {
                    manager.release(guard);
                    return Err(Error::Overflow);
                },
                Some(n) => n,
            };
            let numerator_b = match u256::checked_mul_u128(supply, pending.amount.1) {
                None => {
                    manager.release(guard);
                    return Err(Error::Overflow);
                },
                Some(n) => n,
            };
            proof {
                vstd::arithmetic::mul::lemma_mul_is_commutative(
                    supply.val(),
                    pending.amount.0 as int,
                );
                vstd::arithmetic::mul::lemma_mul_is_commutative(
                    supply.val(),
                    pending.amount.1 as int,
                );
            }
            let liquidity_a = u256::div(numerator_a, U256::from_u128(self.reserve.0));
            let liquidity_b = u256::div(numerator_b, U256::from_u128(self.reserve.1));
            let liquidity = if liquidity_a.lt(&liquidity_b) {
                liquidity_a
            } else {
                liquidity_b
            };
            if supply.checked_add(liquidity).is_none() {
                manager.release(guard);
                return Err(Error::Overflow);
            }
            if liquidity.is_zero() {
                manager.release(guard);
                return Err(Error::InsufficientLiquidity);
            }
            (liquidity, false)
        };
        let id0 = issue_step(&mut guard);
        let id1 = issue_step(&mut guard);
        let transfer_a = TransferRequest {
            transaction_id: id0,
            token: self.token.0,
            sender: pending.msg_source,
            recipient: program_id,
            amount: pending.amount.0,
        };
        let transfer_b = TransferRequest {
            transaction_id: id1,
            token: self.token.1,
            sender: pending.msg_source,
            recipient: program_id,
            amount: pending.amount.1,
        };
        Ok(
            AddLiquidityReady {
                guard,
                msg_source: pending.msg_source,
                to: pending.to,
                amount: pending.amount,
                balance: pending.balance,
                liquidity,
                first_mint,
                is_fee_on,
                fee_receiver,
                fee,
                transfer_a,
                transfer_b,
            },
        )
    }

    /// A deposit leg failed and any completed leg has been compensated:
    /// purges the cache entry and reports the failure. The pair's state was
    /// never touched.
    pub fn add_liquidity_failed(manager: &mut TransactionManager, ready: AddLiquidityReady) -> (r:
        Error)
        requires
            old(manager).wf(),
        ensures
            final(manager).wf(),
            r == Error::TransferFailed,
            final(manager).txs_map() == old(manager).txs_map().remove(ready.guard.tx_id),
            final(manager).actors_map() == old(manager).actors_map().remove(
                ready.guard.msg_source.value,
            ),
            final(manager).nonce() == old(manager).nonce(),
            !final(manager).actors_map().contains_key(ready.guard.msg_source.value),
    {
        manager.release(ready.guard);
        Error::TransferFailed
    }

    /// The second deposit leg failed after the first succeeded: the
    /// compensating transfer returning the token A deposit to the caller.
    pub fn add_liquidity_compensation(ready: &mut AddLiquidityReady) -> (r: TransferRequest)
        requires
            old(ready).guard.step < 255,
        ensures
            final(ready).guard.tx_id == old(ready).guard.tx_id,
            final(ready).guard.msg_source == old(ready).guard.msg_source,
            final(ready).guard.step == old(ready).guard.step + 1,
            final(ready).transfer_a == old(ready).transfer_a,
            final(ready).msg_source == old(ready).msg_source,
            r == (TransferRequest {
                transaction_id: (spec_step_id(
                    old(ready).guard.tx_id,
                    old(ready).guard.step as int,
                )) as u64,
                token: old(ready).transfer_a.token,
                sender: old(ready).transfer_a.recipient,
                recipient: old(ready).msg_source,
                amount: old(ready).transfer_a.amount,
            }),
    {
        let id = issue_step(&mut ready.guard);
        TransferRequest {
            transaction_id: id,
            token: ready.transfer_a.token,
            sender: ready.transfer_a.recipient,
            recipient: ready.msg_source,
            amount: ready.transfer_a.amount,
        }
    }

    /// What each holder's share balance becomes when the planned mints land:
    /// the locked minimum to the zero identity on a first mint, the fee to
    /// its receiver otherwise, and the liquidity to the recipient.
    pub open spec fn spec_add_balance_after(l: Ledger, p: AddLiquidityReady, a: u64) -> int {
        l.balance_val(a) + (if p.first_mint && a == 0 {
            1000int
        } else {
            0
        }) + (if !p.first_mint && a == p.fee_receiver.value {
            p.fee.val()
        } else {
            0
        }) + (if a == p.to.value {
            p.liquidity.val()
        } else {
            0
        })
    }

    /// Both deposit legs succeeded: advances the reserves and prices, mints
    /// the locked minimum or the fee, settles `k_last`, mints the liquidity
    /// and purges the cache entry.
    pub fn add_liquidity_commit(
        &mut self,
        manager: &mut TransactionManager,
        ready: AddLiquidityReady,
        block_ts: u64,
    ) -> (r: Event)
        requires
            old(self).wf(),
            old(manager).wf(),
            old(self).add_ready_ok(ready),
            block_ts >= old(self).last_block_ts,
        ensures
            final(self).wf(),
            final(manager).wf(),
            final(self).factory == old(self).factory,
            final(self).token == old(self).token,
            final(self).reserve == ready.balance,
            final(self).last_block_ts == block_ts,
            Self::spec_price_advanced(*old(self), *final(self), block_ts),
            ready.is_fee_on ==> final(self).k_last.val() == ready.balance.0 * ready.balance.1,
            !ready.is_fee_on ==> final(self).k_last == old(self).k_last,
            final(self).ft_state.total() == old(self).ft_state.total() + (if ready.first_mint {
                1000int
            } else {
                ready.fee.val()
            }) + ready.liquidity.val(),
            forall|a: u64|
                final(self).ft_state.balance_val(a) == Self::spec_add_balance_after(
                    old(self).ft_state,
                    ready,
                    a,
                ),
            r == (Event::AddedLiquidity {
                sender: ready.msg_source,
                amount_a: ready.amount.0,
                amount_b: ready.amount.1,
                liquidity: ready.liquidity,
            }),
            final(manager).txs_map() == old(manager).txs_map().remove(ready.guard.tx_id),
            final(manager).actors_map() == old(manager).actors_map().remove(
                ready.guard.msg_source.value,
            ),
            final(manager).nonce() == old(manager).nonce(),
    {
        self.update(ready.balance, block_ts);
        if ready.first_mint {
            self.ft_state.mint(ActorId::zero(), U256::from_u64(crate::io::MINIMUM_LIQUIDITY));
        } else if !ready.fee.is_zero() {
            self.ft_state.mint(ready.fee_receiver, ready.fee);
        }
        if ready.is_fee_on {
            self.k_last = u256::mul_u128(ready.balance.0, ready.balance.1);
        }
        self.ft_state.mint(ready.to, ready.liquidity);
        manager.release(ready.guard);
        Event::AddedLiquidity {
            sender: ready.msg_source,
            amount_a: ready.amount.0,
            amount_b: ready.amount.1,
            liquidity: ready.liquidity,
        }
    }
}

/// A remove-liquidity action admitted into the transaction cache, the
/// caller's share balance verified.
pub struct RemoveLiquidityPending {
    pub guard: TransactionGuard,
    pub msg_source: ActorId,
    pub to: ActorId,
    /// The liquidity to burn; also the admission fingerprint.
    pub liquidity: U256,
    pub min_amount: (u128, u128),
}

/// A remove-liquidity action with the fee settled, the payout computed and
/// the caller's liquidity already burned; its two payout legs are queued.
pub struct RemoveLiquidityReady {
    pub guard: TransactionGuard,
    pub msg_source: ActorId,
    pub to: ActorId,
    pub liquidity: U256,
    /// The payout of each token.
    pub amount: (u128, u128),
    pub is_fee_on: bool,
    pub fee_receiver: ActorId,
    pub fee: U256,
    /// First leg: the pair pays out token A.
    pub transfer_a: TransferRequest,
    /// Second leg: the pair pays out token B.
    pub transfer_b: TransferRequest,
}

impl Pair {
    /// What the admission phase checks after admitting: the deadline, then
    /// the caller's share balance.
    pub open spec fn spec_remove_check(
        self,
        block_ts: u64,
        deadline: u64,
        msg_source: ActorId,
        liquidity: U256,
    ) -> Result<(), Error> {
        if block_ts > deadline {
            Err(Error::DeadlineExceeded)
        } else if self.ft_state.balance_val(msg_source.value) < liquidity.val()
            || self.ft_state.total() == 0 {
            Err(Error::InsufficientLiquidity)
        } else {
            Ok(())
        }
    }

    /// The admitted burn is still covered by the caller's balance, and the
    /// pool is not empty (nothing can be removed from an empty pool).
    pub open spec fn remove_pending_ok(self, p: RemoveLiquidityPending) -> bool {
        &&& p.guard.step == 0
        &&& p.guard.msg_source == p.msg_source
        &&& self.ft_state.balance_val(p.msg_source.value) >= p.liquidity.val()
        &&& self.ft_state.total() != 0
    }

    /// Removes liquidity: admits the action under the fingerprint of the
    /// liquidity amount, then checks the deadline and the caller's share
    /// balance. On any rejection after admission the caller's cache entry is
    /// purged again.
    pub fn remove_liquidity(
        &self,
        manager: &mut TransactionManager,
        kind: TransactionKind,
        msg_source: ActorId,
        block_ts: u64,
        liquidity: U256,
        min_amount: (u128, u128),
        to: ActorId,
        deadline: u64,
    ) -> (r: Result<RemoveLiquidityPending, Error>)
        requires
            self.wf(),
            old(manager).wf(),
        ensures
            final(manager).wf(),
            match old(manager).spec_admit(
                kind,
                msg_source,
                CachedAction::RemovedLiquidity(liquidity),
            ) {
                Err(e) => r == Err::<RemoveLiquidityPending, Error>(Error::TxCacheError(e))
                    && *final(manager) == *old(manager),
                Ok(tx_id) => match self.spec_remove_check(block_ts, deadline, msg_source, liquidity) {
                    Err(e) => r == Err::<RemoveLiquidityPending, Error>(e) && !final(manager).actors_map().contains_key(msg_source.value),
                    Ok(u) => TransactionManager::spec_admitted(
                        *old(manager),
                        *final(manager),
                        kind,
                        msg_source,
                        CachedAction::RemovedLiquidity(liquidity),
                    ) && (r matches Ok(p) && {
                        &&& p.guard.tx_id == tx_id && p.guard.msg_source == msg_source
                        &&& p.msg_source == msg_source && p.to == to
                        &&& p.liquidity == liquidity && p.min_amount == min_amount
                        &&& self.remove_pending_ok(p)
                    }),
                },
            },
    {
        let guard = match manager.asquire_transaction(
            kind,
            msg_source,
            CachedAction::RemovedLiquidity(liquidity),
        ) {
            Err(e) => {
                return Err(Error::from_cache(e));
            },
            Ok(g) => g,
        };
        if let Err(e) = check_deadline(block_ts, deadline) {
            manager.release(guard);
            return Err(e);
        }
        let balance = self.ft_state.balance_of(msg_source);
        if balance.lt(&liquidity) || self.ft_state.total_supply.is_zero() {
            manager.release(guard);
            return Err(Error::InsufficientLiquidity);
        }
        Ok(RemoveLiquidityPending { guard, msg_source, to, liquidity, min_amount })
    }

    /// The payout for a burn, once the fee receiver is known: the burned
    /// share of each reserve against the fee-adjusted supply, bounded below
    /// by the caller's minimums.
    pub open spec fn spec_remove_liquidity_plan(
        self,
        fee_reply: Option<ActorId>,
        liquidity: U256,
        min_amount: (u128, u128),
    ) -> Result<(bool, ActorId, int, (u128, u128)), Error> {
        let total = self.ft_state.total();
        match Self::spec_calculate_fee(self.reserve, self.k_last.val(), total, fee_reply) {
            Err(e) => Err(e),
            Ok(t) => {
                let fee = t.2;
                if liquidity.val() * self.reserve.0 >= pow2_256() || liquidity.val()
                    * self.reserve.1 >= pow2_256() {
                    Err(Error::Overflow)
                } else if total + fee >= pow2_256() {
                    Err(Error::Overflow)
                } else {
                    let supply = total + fee;
                    let amount_a = liquidity.val() * self.reserve.0 / supply;
                    let amount_b = liquidity.val() * self.reserve.1 / supply;
                    if amount_a == 0 || amount_b == 0 {
                        Err(Error::InsufficientLiquidity)
                    } else if amount_a < min_amount.0 {
                        Err(Error::InsufficientFormerAmount)
                    } else if amount_b < min_amount.1 {
                        Err(Error::InsufficientLatterAmount)
                    } else {
                        Ok((t.0, t.1, fee, (amount_a as u128, amount_b as u128)))
                    }
                }
            },
        }
    }

    /// The planned payout and mints stay in range; the fee is zero while the
    /// fee is off.
    pub open spec fn remove_ready_ok(self, p: RemoveLiquidityReady) -> bool {
        &&& p.guard.msg_source == p.msg_source
        &&& p.amount.0 <= self.reserve.0 && p.amount.1 <= self.reserve.1
        &&& self.ft_state.total() + p.liquidity.val() < pow2_256()
        &&& self.ft_state.total() + p.fee.val() < pow2_256()
        &&& !p.is_fee_on ==> p.fee.val() == 0
    }

    /// Settles the protocol fee, computes the payout, burns the caller's
    /// liquidity and queues the two payout legs. On an error nothing is
    /// burned and the caller's cache entry is purged.
    pub fn remove_liquidity_with_fee(
        &mut self,
        manager: &mut TransactionManager,
        pending: RemoveLiquidityPending,
        fee_reply: Option<ActorId>,
        program_id: ActorId,
    ) -> (r: Result<RemoveLiquidityReady, Error>)
        requires
            old(self).wf(),
            old(manager).wf(),
            old(self).remove_pending_ok(pending),
        ensures
            final(self).wf(),
            final(manager).wf(),
            final(self).factory == old(self).factory,
            final(self).token == old(self).token,
            final(self).reserve == old(self).reserve,
            final(self).cumulative_price == old(self).cumulative_price,
            final(self).last_block_ts == old(self).last_block_ts,
            final(self).k_last == old(self).k_last,
            match old(self).spec_remove_liquidity_plan(
                fee_reply,
                pending.liquidity,
                pending.min_amount,
            ) {
                Err(e) => {
                    &&& r == Err::<RemoveLiquidityReady, Error>(e)
                    &&& *final(self) == *old(self)
                    &&& !final(manager).actors_map().contains_key(pending.msg_source.value)
                    &&& final(manager).nonce() == old(manager).nonce()
                },
                Ok(plan) => *final(manager) == *old(manager) && final(self).ft_state.total() == old(self).ft_state.total() - pending.liquidity.val() && final(self).ft_state.balance_val(
                    pending.msg_source.value,
                ) == old(self).ft_state.balance_val(pending.msg_source.value)
                    - pending.liquidity.val() && (forall|a: u64|
                    a != pending.msg_source.value ==> final(self).ft_state.balance_val(a) == old(self).ft_state.balance_val(a)) && (r matches Ok(p) && {
                    &&& p.guard.tx_id == pending.guard.tx_id && p.guard.msg_source
                        == pending.guard.msg_source && p.guard.step == 2
                    &&& p.msg_source == pending.msg_source && p.to == pending.to
                    &&& p.liquidity == pending.liquidity
                    &&& p.is_fee_on == plan.0 && p.fee_receiver == plan.1
                    &&& p.fee.val() == plan.2 && p.amount == plan.3
                    &&& p.transfer_a == (TransferRequest {
                        transaction_id: (spec_step_id(pending.guard.tx_id, 0)) as u64,
                        token: old(self).token.0,
                        sender: program_id,
                        recipient: pending.to,
                        amount: plan.3.0,
                    })
                    &&& p.transfer_b == (TransferRequest {
                        transaction_id: (spec_step_id(pending.guard.tx_id, 1)) as u64,
                        token: old(self).token.1,
                        sender: program_id,
                        recipient: pending.to,
                        amount: plan.3.1,
                    })
                    &&& final(self).remove_ready_ok(p)
                }),
            },
    {
        let fee_parts = match self.calculate_fee(fee_reply) {
            Err(e) => {
                manager.release(pending.guard);
                return Err(e);
            },
            Ok(t) => t,
        };
        let (is_fee_on, fee_receiver, fee) = fee_parts;
        let amount_a_wide = match u256::checked_mul_u128(pending.liquidity, self.reserve.0) {
            None => {
                manager.release(pending.guard);
                return Err(Error::Overflow);
            },
            Some(n) => n,
        };
        let amount_b_wide = match u256::checked_mul_u128(pending.liquidity, self.reserve.1) {
            None => {
                manager.release(pending.guard);
                return Err(Error::Overflow);
            },
            Some(n) => n,
        };
        let supply = match self.ft_state.total_supply.checked_add(fee) {
            None => {
                manager.release(pending.guard);
                return Err(Error::Overflow);
            },
            Some(t) => t,
        };
        proof {
            self.ft_state.lemma_balance_le_total(pending.msg_source.value);
            math::lemma_mul_div_le_factor(
                pending.liquidity.val(),
                self.reserve.0 as int,
                supply.val(),
            );
            math::lemma_mul_div_le_factor(
                pending.liquidity.val(),
                self.reserve.1 as int,
                supply.val(),
            );
            vstd::arithmetic::div_mod::lemma_div_pos_is_pos(amount_a_wide.val(), supply.val());
            vstd::arithmetic::div_mod::lemma_div_pos_is_pos(amount_b_wide.val(), supply.val());
        }
        let amount_a = u256::div(amount_a_wide, supply).low_u128();
        let amount_b = u256::div(amount_b_wide, supply).low_u128();
        if amount_a == 0 || amount_b == 0 {
            manager.release(pending.guard);
            return Err(Error::InsufficientLiquidity);
        }
        if amount_a < pending.min_amount.0 {
            manager.release(pending.guard);
            return Err(Error::InsufficientFormerAmount);
        }
        if amount_b < pending.min_amount.1 {
            manager.release(pending.guard);
            return Err(Error::InsufficientLatterAmount);
        }
        proof {
            U256::lemma_val_bound(self.ft_state.total_supply);
        }
        self.ft_state.burn(pending.msg_source, pending.liquidity);
        let mut guard = pending.guard;
        let id0 = issue_step(&mut guard);
        let id1 = issue_step(&mut guard);
        let transfer_a = TransferRequest {
            transaction_id: id0,
            token: self.token.0,
            sender: program_id,
            recipient: pending.to,
            amount: amount_a,
        };
        let transfer_b = TransferRequest {
            transaction_id: id1,
            token: self.token.1,
            sender: program_id,
            recipient: pending.to,
            amount: amount_b,
        };
        Ok(
            RemoveLiquidityReady {
                guard,
                msg_source: pending.msg_source,
                to: pending.to,
                liquidity: pending.liquidity,
                amount: (amount_a, amount_b),
                is_fee_on,
                fee_receiver,
                fee,
                transfer_a,
                transfer_b,
            },
        )
    }

    /// The first payout leg failed: the burned liquidity is minted back to
    /// the caller, the cache entry is purged and the failure reported. The
    /// caller ends with the balance it started with.
    pub fn remove_liquidity_first_failed(
        &mut self,
        manager: &mut TransactionManager,
        ready: RemoveLiquidityReady,
    ) -> (r: Error)
        requires
            old(self).wf(),
            old(manager).wf(),
            old(self).remove_ready_ok(ready),
        ensures
            final(self).wf(),
            final(manager).wf(),
            r == Error::TransferFailed,
            final(self).factory == old(self).factory,
            final(self).token == old(self).token,
            final(self).reserve == old(self).reserve,
            final(self).cumulative_price == old(self).cumulative_price,
            final(self).last_block_ts == old(self).last_block_ts,
            final(self).k_last == old(self).k_last,
            final(self).ft_state.total() == old(self).ft_state.total() + ready.liquidity.val(),
            final(self).ft_state.balance_val(ready.msg_source.value) == old(self).ft_state.balance_val(ready.msg_source.value) + ready.liquidity.val(),
            forall|a: u64|
                a != ready.msg_source.value ==> final(self).ft_state.balance_val(a) == old(self).ft_state.balance_val(a),
            !final(manager).actors_map().contains_key(ready.msg_source.value),
            final(manager).nonce() == old(manager).nonce(),
    {
        self.ft_state.mint(ready.msg_source, ready.liquidity);
        manager.release(ready.guard);
        Error::TransferFailed
    }

    /// The second payout leg failed after the first succeeded. The first leg
    /// cannot be cancelled any more, so nothing is compensated: the burned
    /// liquidity stays burned and only the cache entry is purged — the
    /// protocol's deliberate asymmetric-risk point.
    pub fn remove_liquidity_second_failed(
        manager: &mut TransactionManager,
        ready: RemoveLiquidityReady,
    ) -> (r: Error)
        requires
            old(manager).wf(),
        ensures
            final(manager).wf(),
            r == Error::TransferFailed,
            !final(manager).actors_map().contains_key(ready.guard.msg_source.value),
            final(manager).nonce() == old(manager).nonce(),
    {
        manager.release(ready.guard);
        Error::TransferFailed
    }

    /// Both payout legs succeeded: mints the fee, settles `k_last`, moves
    /// the reserves down by the payout and purges the cache entry.
    pub fn remove_liquidity_commit(
        &mut self,
        manager: &mut TransactionManager,
        ready: RemoveLiquidityReady,
        block_ts: u64,
    ) -> (r: Event)
        requires
            old(self).wf(),
            old(manager).wf(),
            old(self).remove_ready_ok(ready),
            block_ts >= old(self).last_block_ts,
        ensures
            final(self).wf(),
            final(manager).wf(),
            final(self).factory == old(self).factory,
            final(self).token == old(self).token,
            final(self).reserve == (
                (old(self).reserve.0 - ready.amount.0) as u128,
                (old(self).reserve.1 - ready.amount.1) as u128,
            ),
            final(self).last_block_ts == block_ts,
            Self::spec_price_advanced(*old(self), *final(self), block_ts),
            ready.is_fee_on ==> final(self).k_last.val() == (old(self).reserve.0 - ready.amount.0)
                * (old(self).reserve.1 - ready.amount.1),
            !ready.is_fee_on ==> final(self).k_last == old(self).k_last,
            final(self).ft_state.total() == old(self).ft_state.total() + ready.fee.val(),
            forall|a: u64|
                final(self).ft_state.balance_val(a) == old(self).ft_state.balance_val(a) + (
                if a == ready.fee_receiver.value {
                    ready.fee.val()
                } else {
                    0int
                }),
            r == (Event::RemovedLiquidity {
                sender: ready.msg_source,
                amount_a: ready.amount.0,
                amount_b: ready.amount.1,
                to: ready.to,
            }),
            final(manager).txs_map() == old(manager).txs_map().remove(ready.guard.tx_id),
            final(manager).actors_map() == old(manager).actors_map().remove(
                ready.guard.msg_source.value,
            ),
            final(manager).nonce() == old(manager).nonce(),
    {
        let balance = (self.reserve.0 - ready.amount.0, self.reserve.1 - ready.amount.1);
        if ready.is_fee_on {
            if !ready.fee.is_zero() {
                self.ft_state.mint(ready.fee_receiver, ready.fee);
            }
            self.k_last = u256::mul_u128(balance.0, balance.1);
        }
        self.update(balance, block_ts);
        manager.release(ready.guard);
        Event::RemovedLiquidity {
            sender: ready.msg_source,
            amount_a: ready.amount.0,
            amount_b: ready.amount.1,
            to: ready.to,
        }
    }
}

/// A skim admitted into the transaction cache.
pub struct SkimPending {
    pub guard: TransactionGuard,
    pub msg_source: ActorId,
    pub to: ActorId,
}

/// A skim with the excesses computed and its two payout legs queued.
pub struct SkimReady {
    pub guard: TransactionGuard,
    pub msg_source: ActorId,
    pub to: ActorId,
    /// How much each actual balance exceeds the recorded reserve.
    pub excess: (u128, u128),
    pub transfer_a: TransferRequest,
    pub transfer_b: TransferRequest,
}

impl Pair {
    /// Skims excess tokens: admits the action; the runtime then queries the
    /// actual balances and [`Pair::skim_plan`] computes the excesses.
    pub fn skim(
        &self,
        manager: &mut TransactionManager,
        kind: TransactionKind,
        msg_source: ActorId,
        to: ActorId,
    ) -> (r: Result<SkimPending, Error>)
        requires
            self.wf(),
            old(manager).wf(),
        ensures
            final(manager).wf(),
            match old(manager).spec_admit(kind, msg_source, CachedAction::Other) {
                Err(e) => r == Err::<SkimPending, Error>(Error::TxCacheError(e)) && *final(manager)
                    == *old(manager),
                Ok(tx_id) => TransactionManager::spec_admitted(
                    *old(manager),
                    *final(manager),
                    kind,
                    msg_source,
                    CachedAction::Other,
                ) && (r matches Ok(p) && p.guard.tx_id == tx_id && p.guard.msg_source == msg_source
                    && p.guard.step == 0 && p.msg_source == msg_source && p.to == to),
            },
    {
        let guard = match manager.asquire_transaction(kind, msg_source, CachedAction::Other) {
            Err(e) => {
                return Err(Error::from_cache(e));
            },
            Ok(g) => g,
        };
        Ok(SkimPending { guard, msg_source, to })
    }

    /// Computes the excess of each actual balance over the recorded reserve
    /// and queues the two payout legs; a balance below its reserve is an
    /// overflow error (and purges the cache entry).
    pub fn skim_plan(
        &self,
        manager: &mut TransactionManager,
        pending: SkimPending,
        contract_balance: (u128, u128),
        program_id: ActorId,
    ) -> (r: Result<SkimReady, Error>)
        requires
            self.wf(),
            old(manager).wf(),
            pending.guard.step == 0,
            pending.guard.msg_source == pending.msg_source,
        ensures
            final(manager).wf(),
            if contract_balance.0 < self.reserve.0 || contract_balance.1 < self.reserve.1 {
                r == Err::<SkimReady, Error>(Error::Overflow) && !final(manager).actors_map().contains_key(pending.msg_source.value) && final(manager).nonce()
                    == old(manager).nonce()
            } else {
                *final(manager) == *old(manager) && (r matches Ok(p) && {
                    &&& p.guard.tx_id == pending.guard.tx_id && p.guard.msg_source
                        == pending.guard.msg_source && p.guard.step == 2
                    &&& p.msg_source == pending.msg_source && p.to == pending.to
                    &&& p.excess == (
                        (contract_balance.0 - self.reserve.0) as u128,
                        (contract_balance.1 - self.reserve.1) as u128,
                    )
                    &&& p.transfer_a == (TransferRequest {
                        transaction_id: (spec_step_id(pending.guard.tx_id, 0)) as u64,
                        token: self.token.0,
                        sender: program_id,
                        recipient: pending.to,
                        amount: p.excess.0,
                    })
                    &&& p.transfer_b == (TransferRequest {
                        transaction_id: (spec_step_id(pending.guard.tx_id, 1)) as u64,
                        token: self.token.1,
                        sender: program_id,
                        recipient: pending.to,
                        amount: p.excess.1,
                    })
                })
            },
    {
        if contract_balance.0 < self.reserve.0 || contract_balance.1 < self.reserve.1 {
            manager.release(pending.guard);
            return Err(Error::Overflow);
        }
        let excess = (contract_balance.0 - self.reserve.0, contract_balance.1 - self.reserve.1);
        let mut guard = pending.guard;
        let id0 = issue_step(&mut guard);
        let id1 = issue_step(&mut guard);
        let transfer_a = TransferRequest {
            transaction_id: id0,
            token: self.token.0,
            sender: program_id,
            recipient: pending.to,
            amount: excess.0,
        };
        let transfer_b = TransferRequest {
            transaction_id: id1,
            token: self.token.1,
            sender: program_id,
            recipient: pending.to,
            amount: excess.1,
        };
        Ok(SkimReady { guard, msg_source: pending.msg_source, to: pending.to, excess, transfer_a, transfer_b })
    }

    /// A payout leg of the skim failed: purges the cache entry and reports
    /// the failure.
    pub fn skim_failed(manager: &mut TransactionManager, ready: SkimReady) -> (r: Error)
        requires
            old(manager).wf(),
        ensures
            final(manager).wf(),
            r == Error::TransferFailed,
            !final(manager).actors_map().contains_key(ready.guard.msg_source.value),
            final(manager).nonce() == old(manager).nonce(),
    {
        manager.release(ready.guard);
        Error::TransferFailed
    }

    /// Both payout legs succeeded: the reserves are untouched by a skim;
    /// only the cache entry is purged.
    pub fn skim_commit(manager: &mut TransactionManager, ready: SkimReady) -> (r: Event)
        requires
            old(manager).wf(),
        ensures
            final(manager).wf(),
            r == (Event::Skim { amount_a: ready.excess.0, amount_b: ready.excess.1, to: ready.to }),
            final(manager).txs_map() == old(manager).txs_map().remove(ready.guard.tx_id),
            final(manager).actors_map() == old(manager).actors_map().remove(
                ready.guard.msg_source.value,
            ),
            final(manager).nonce() == old(manager).nonce(),
            !final(manager).actors_map().contains_key(ready.guard.msg_source.value),
    {
        manager.release(ready.guard);
        Event::Skim { amount_a: ready.excess.0, amount_b: ready.excess.1, to: ready.to }
    }
}

/// Issues the next sub-call id from a guard known to have steps left.
fn issue_step(guard: &mut TransactionGuard) -> (r: u64)
    requires
        old(guard).step < 255,
    ensures
        final(guard).step == old(guard).step + 1,
        final(guard).tx_id == old(guard).tx_id,
        final(guard).msg_source == old(guard).msg_source,
        r == spec_step_id(old(guard).tx_id, old(guard).step as int),
{
    match guard.step() {
        Ok(id) => id,
        Err(_) => {
            proof {
                assert(false);
            }
            0
        },
    }
}

/// `x % m` written out for a value known to lie below `2 * m`.
proof fn lemma_mod_once(x: int, m: int)
    requires
        m > 0,
        0 <= x < 2 * m,
    ensures
        x % m == if x < m {
            x
        } else {
            x - m
        },
{
    if x < m {
        vstd::arithmetic::div_mod::lemma_small_mod(x as nat, m as nat);
    } else {
        vstd::arithmetic::div_mod::lemma_fundamental_div_mod_converse_mod(x, m, 1, x - m);
    }
}

} // verus!
