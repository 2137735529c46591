//! The message handler: routes an inbound action into its saga and advances
//! a suspended saga when the runtime delivers the next reply.
//!
//! The runtime (or a test harness) drives the loop: [`handle`] either
//! finishes the action synchronously or yields a [`Session`] plus the
//! [`Command`] to perform; each completed command's [`Reply`] goes back in
//! through [`resume`] until a [`Step::Done`] falls out. The contracts pin,
//! per action and per session, the exact rejection error, the exact command
//! issued next (compensations included), the state change each reply
//! commits, and that a finished action never leaves a cache entry behind —
//! so a driver needs nothing beyond these two functions.

use vstd::prelude::*;
use crate::actor::ActorId;
use crate::io::{Action, CachedAction, Error, Event, InnerAction, SwapKind};
use crate::pair::{
    spec_step_id,
    AddLiquidityPending,
    AddLiquidityReady,
    Pair,
    RemoveLiquidityPending,
    RemoveLiquidityReady,
    SkimPending,
    SkimReady,
    SwapPending,
    TransferRequest,
};
use crate::tx_manager::TransactionManager;

verus! {

/// What the pair asks the runtime to do next.
pub enum Command {
    /// Ask the factory for the fee receiver.
    GetFeeTo { factory: ActorId },
    /// Perform one token transfer.
    Transfer(TransferRequest),
    /// Query the pair's own balance at both token contracts.
    GetBalances { token_a: ActorId, token_b: ActorId, account: ActorId },
}

/// The runtime's answer to a [`Command`].
pub enum Reply {
    /// The fee receiver, or `None` when the factory query failed or was
    /// answered unexpectedly.
    FeeTo(Option<ActorId>),
    /// Whether the transfer succeeded.
    Transferred(bool),
    /// Both balances, or the runtime's error text when a query failed.
    Balances(Result<(u128, u128), String>),
}

/// A saga suspended at its next outside call.
pub enum Session {
    AddFee(AddLiquidityPending),
    AddDepositA(AddLiquidityReady),
    AddDepositB(AddLiquidityReady),
    AddCompensate(AddLiquidityReady),
    RemoveFee(RemoveLiquidityPending),
    RemovePayoutA(RemoveLiquidityReady),
    RemovePayoutB(RemoveLiquidityReady),
    SwapIn(SwapPending),
    SwapOut(SwapPending),
    SwapCompensate(SwapPending),
    SkimBalances(SkimPending),
    SkimPayoutA(SkimReady),
    SkimPayoutB(SkimReady),
    SyncBalances,
}

/// One advance of the handler: the action's result, or the next suspension.
pub enum Step {
    Done(Result<Event, Error>),
    Next(Session, Command),
}

/// The suspended saga still matches the pair it was planned against; drivers
/// maintain this by not mutating the pair between suspension points.
pub open spec fn session_ok(pair: Pair, s: Session) -> bool {
    match s {
        Session::AddFee(p) => pair.add_pending_ok(p),
        Session::AddDepositA(p) => pair.add_ready_ok(p) && p.guard.step < 255
            && p.guard.msg_source == p.msg_source,
        Session::AddDepositB(p) => pair.add_ready_ok(p) && p.guard.step < 255
            && p.guard.msg_source == p.msg_source,
        Session::AddCompensate(p) => p.guard.msg_source == p.msg_source,
        Session::RemoveFee(p) => pair.remove_pending_ok(p),
        Session::RemovePayoutA(p) => pair.remove_ready_ok(p),
        Session::RemovePayoutB(p) => pair.remove_ready_ok(p),
        Session::SwapIn(p) => pair.swap_pending_ok(p) && p.guard.step < 255
            && p.guard.msg_source == p.msg_source,
        Session::SwapOut(p) => pair.swap_pending_ok(p) && p.guard.step < 255
            && p.guard.msg_source == p.msg_source,
        Session::SwapCompensate(p) => p.guard.msg_source == p.msg_source,
        Session::SkimBalances(p) => p.guard.step == 0 && p.guard.msg_source == p.msg_source,
        Session::SkimPayoutA(p) => p.guard.msg_source == p.msg_source,
        Session::SkimPayoutB(p) => p.guard.msg_source == p.msg_source,
        Session::SyncBalances => true,
    }
}

/// The reply variant a session is waiting for.
pub open spec fn reply_fits(s: Session, reply: Reply) -> bool {
    match s {
        Session::AddFee(_) => reply is FeeTo,
        Session::RemoveFee(_) => reply is FeeTo,
        Session::SkimBalances(_) => reply is Balances,
        Session::SyncBalances => reply is Balances,
        _ => reply is Transferred,
    }
}

/// The error on which an add-liquidity action finishes synchronously, if it
/// does: its checks and amounts, then its admission, then the balance guard.
pub open spec fn spec_add_rejection(
    pair: Pair,
    manager: TransactionManager,
    action: Action,
    msg_source: ActorId,
    block_ts: u64,
    desired: (u128, u128),
    min: (u128, u128),
    deadline: u64,
) -> Option<Error> {
    match pair.spec_add_liquidity_decision(block_ts, deadline, desired, min) {
        Err(e) => Some(e),
        Ok(amount) => match manager.spec_admit(
            action.kind,
            msg_source,
            CachedAction::AddLiquidity(amount.0, amount.1),
        ) {
            Err(ce) => Some(Error::TxCacheError(ce)),
            Ok(u) => if pair.reserve.0 + amount.0 > u128::MAX || pair.reserve.1 + amount.1
                > u128::MAX {
                Some(Error::Overflow)
            } else {
                None
            },
        },
    }
}

/// The error on which a remove-liquidity action finishes synchronously:
/// its admission, then the deadline and balance checks.
pub open spec fn spec_remove_rejection(
    pair: Pair,
    manager: TransactionManager,
    action: Action,
    msg_source: ActorId,
    block_ts: u64,
    liquidity: crate::u256::U256,
    deadline: u64,
) -> Option<Error> {
    match manager.spec_admit(
        action.kind,
        msg_source,
        CachedAction::RemovedLiquidity(liquidity),
    ) {
        Err(ce) => Some(Error::TxCacheError(ce)),
        Ok(u) => match pair.spec_remove_check(block_ts, deadline, msg_source, liquidity) {
            Err(e) => Some(e),
            Ok(v) => None,
        },
    }
}

/// The error on which an exact-input swap finishes synchronously: its
/// admission, then the checks and pricing.
pub open spec fn spec_swap_exact_rejection(
    pair: Pair,
    manager: TransactionManager,
    action: Action,
    msg_source: ActorId,
    block_ts: u64,
    amount_in: u128,
    amount_out_min: u128,
    to: ActorId,
    deadline: u64,
    swap_kind: crate::io::SwapKind,
) -> Option<Error> {
    match manager.spec_admit(action.kind, msg_source, CachedAction::Swap(amount_in)) {
        Err(ce) => Some(Error::TxCacheError(ce)),
        Ok(u) => match pair.spec_swap_exact_decision(
            block_ts,
            deadline,
            amount_in,
            amount_out_min,
            to,
            swap_kind,
        ) {
            Err(e) => Some(e),
            Ok(out) => None,
        },
    }
}

/// The error on which an exact-output swap finishes synchronously: its
/// checks and pricing, then its admission under the resolved input, then the
/// caller's bound and the reserve guard.
pub open spec fn spec_swap_for_exact_rejection(
    pair: Pair,
    manager: TransactionManager,
    action: Action,
    msg_source: ActorId,
    block_ts: u64,
    amount_out: u128,
    amount_in_max: u128,
    to: ActorId,
    deadline: u64,
    swap_kind: crate::io::SwapKind,
) -> Option<Error> {
    match pair.spec_swap_exact_out_decision(block_ts, deadline, amount_out, to, swap_kind) {
        Err(e) => Some(e),
        Ok(in_amt) => match manager.spec_admit(
            action.kind,
            msg_source,
            CachedAction::Swap(in_amt),
        ) {
            Err(ce) => Some(Error::TxCacheError(ce)),
            Ok(u) => if in_amt > amount_in_max {
                Some(Error::InsufficientFormerAmount)
            } else if pair.spec_swap_reserve(swap_kind).0 + in_amt > u128::MAX {
                Some(Error::Overflow)
            } else {
                None
            },
        },
    }
}

/// Starts processing one inbound action: performs every synchronous check
/// and admission, and either finishes (`Done`) or suspends the saga at its
/// first outside call.
pub fn handle(
    pair: &mut Pair,
    manager: &mut TransactionManager,
    action: Action,
    msg_source: ActorId,
    program_id: ActorId,
    block_ts: u64,
) -> (r: Step)
    requires
        old(pair).wf(),
        old(manager).wf(),
    ensures
        final(pair).wf(),
        final(manager).wf(),
        match action.action {
            InnerAction::Transfer { to, amount } => *final(manager) == *old(manager) && final(pair).reserve == old(pair).reserve && final(pair).cumulative_price == old(pair).cumulative_price && final(pair).k_last == old(pair).k_last && final(pair).last_block_ts == old(pair).last_block_ts && final(pair).token == old(pair).token
                && final(pair).factory == old(pair).factory && final(pair).ft_state.total() == old(pair).ft_state.total() && (r matches Step::Done(res) && match res {
                Err(e) => e == Error::InsufficientAmount && amount.val() > old(pair).ft_state.balance_val(msg_source.value) && *final(pair) == *old(pair),
                Ok(event) => {
                    &&& amount.val() <= old(pair).ft_state.balance_val(msg_source.value)
                    &&& event == (Event::Transfer { from: msg_source, to, amount })
                    &&& msg_source.value == to.value ==> final(pair).ft_state.balance_val(
                        msg_source.value,
                    ) == old(pair).ft_state.balance_val(msg_source.value)
                    &&& msg_source.value != to.value ==> final(pair).ft_state.balance_val(
                        msg_source.value,
                    ) == old(pair).ft_state.balance_val(msg_source.value) - amount.val()
                        && final(pair).ft_state.balance_val(to.value)
                        == old(pair).ft_state.balance_val(to.value) + amount.val()
                    &&& forall|a: u64|
                        a != msg_source.value && a != to.value ==> final(pair).ft_state.balance_val(a) == old(pair).ft_state.balance_val(a)
                },
            }),
            InnerAction::Sync => *final(pair) == *old(pair) && *final(manager) == *old(manager)
                && (r matches Step::Next(s, c) && s is SyncBalances && (c matches
                Command::GetBalances { token_a, token_b, account } && token_a == old(pair).token.0
                && token_b == old(pair).token.1 && account == program_id)),
            InnerAction::AddLiquidity {
                amount_a_desired,
                amount_b_desired,
                amount_a_min,
                amount_b_min,
                to,
                deadline,
            } => *final(pair) == *old(pair) && (match spec_add_rejection(
                *old(pair),
                *old(manager),
                action,
                msg_source,
                block_ts,
                (amount_a_desired, amount_b_desired),
                (amount_a_min, amount_b_min),
                deadline,
            ) {
                Some(e) => r == Step::Done(Err::<Event, Error>(e)) && (*final(manager) == *old(manager) || !final(manager).actors_map().contains_key(msg_source.value)),
                None => r matches Step::Next(s, c) && session_ok(*final(pair), s) && (s matches
                Session::AddFee(p) && p.msg_source == msg_source && p.to == to && p.amount == old(pair).spec_add_liquidity_decision(
                    block_ts,
                    deadline,
                    (amount_a_desired, amount_b_desired),
                    (amount_a_min, amount_b_min),
                )->Ok_0) && (c matches Command::GetFeeTo { factory } && factory == old(pair).factory),
            }),
            InnerAction::RemoveLiquidity { liquidity, amount_a_min, amount_b_min, to, deadline } => {
                *final(pair) == *old(pair) && (match spec_remove_rejection(
                    *old(pair),
                    *old(manager),
                    action,
                    msg_source,
                    block_ts,
                    liquidity,
                    deadline,
                ) {
                    Some(e) => r == Step::Done(Err::<Event, Error>(e)) && (*final(manager) == *old(manager) || !final(manager).actors_map().contains_key(msg_source.value)),
                    None => r matches Step::Next(s, c) && session_ok(*final(pair), s) && (s matches
                    Session::RemoveFee(p) && p.msg_source == msg_source && p.to == to
                        && p.liquidity == liquidity && p.min_amount == (amount_a_min, amount_b_min))
                        && (c matches Command::GetFeeTo { factory } && factory == old(pair).factory),
                })
            },
            InnerAction::SwapExactTokensForTokens {
                amount_in,
                amount_out_min,
                to,
                deadline,
                swap_kind,
            } => *final(pair) == *old(pair) && (match spec_swap_exact_rejection(
                *old(pair),
                *old(manager),
                action,
                msg_source,
                block_ts,
                amount_in,
                amount_out_min,
                to,
                deadline,
                swap_kind,
            ) {
                Some(e) => r == Step::Done(Err::<Event, Error>(e)) && (*final(manager) == *old(manager) || !final(manager).actors_map().contains_key(msg_source.value)),
                None => r matches Step::Next(s, c) && session_ok(*final(pair), s) && (s matches
                Session::SwapIn(p) && p.msg_source == msg_source && p.to == to && p.in_amount
                    == amount_in && p.kind == swap_kind && c == Command::Transfer(p.transfer_in)),
            }),
            InnerAction::SwapTokensForExactTokens {
                amount_out,
                amount_in_max,
                to,
                deadline,
                swap_kind,
            } => *final(pair) == *old(pair) && (match spec_swap_for_exact_rejection(
                *old(pair),
                *old(manager),
                action,
                msg_source,
                block_ts,
                amount_out,
                amount_in_max,
                to,
                deadline,
                swap_kind,
            ) {
                Some(e) => r == Step::Done(Err::<Event, Error>(e)) && (*final(manager) == *old(manager) || !final(manager).actors_map().contains_key(msg_source.value)),
                None => r matches Step::Next(s, c) && session_ok(*final(pair), s) && (s matches
                Session::SwapIn(p) && p.msg_source == msg_source && p.to == to && p.out_amount
                    == amount_out && p.in_amount == old(pair).spec_swap_exact_out_decision(
                    block_ts,
                    deadline,
                    amount_out,
                    to,
                    swap_kind,
                )->Ok_0 && p.kind == swap_kind && c == Command::Transfer(p.transfer_in)),
            }),
            InnerAction::Skim(to) => *final(pair) == *old(pair) && (match old(manager).spec_admit(
                action.kind,
                msg_source,
                CachedAction::Other,
            ) {
                Err(ce) => r == Step::Done(Err::<Event, Error>(Error::TxCacheError(ce))) && *final(manager) == *old(manager),
                Ok(u) => r matches Step::Next(s, c) && session_ok(*final(pair), s) && (s matches
                Session::SkimBalances(p) && p.msg_source == msg_source && p.to == to) && (c matches
                Command::GetBalances { token_a, token_b, account } && token_a == old(pair).token.0
                    && token_b == old(pair).token.1 && account == program_id),
            }),
        },
{
    match action.action {
        InnerAction::AddLiquidity {
            amount_a_desired,
            amount_b_desired,
            amount_a_min,
            amount_b_min,
            to,
            deadline,
        } => {
            match pair.add_liquidity(
                manager,
                action.kind,
                msg_source,
                block_ts,
                (amount_a_desired, amount_b_desired),
                (amount_a_min, amount_b_min),
                to,
                deadline,
            ) {
                Err(e) => Step::Done(Err(e)),
                Ok(pending) => {
                    let factory = pair.factory;
                    Step::Next(Session::AddFee(pending), Command::GetFeeTo { factory })
                },
            }
        },
        InnerAction::RemoveLiquidity { liquidity, amount_a_min, amount_b_min, to, deadline } => {
            match pair.remove_liquidity(
                manager,
                action.kind,
                msg_source,
                block_ts,
                liquidity,
                (amount_a_min, amount_b_min),
                to,
                deadline,
            ) {
                Err(e) => Step::Done(Err(e)),
                Ok(pending) => {
                    let factory = pair.factory;
                    Step::Next(Session::RemoveFee(pending), Command::GetFeeTo { factory })
                },
            }
        },
        InnerAction::SwapExactTokensForTokens {
            amount_in,
            amount_out_min,
            to,
            deadline,
            swap_kind,
        } => {
            match pair.swap_exact_tokens_for(
                manager,
                action.kind,
                msg_source,
                program_id,
                block_ts,
                amount_in,
                amount_out_min,
                to,
                deadline,
                swap_kind,
            ) {
                Err(e) => Step::Done(Err(e)),
                Ok(pending) => {
                    let transfer_in = pending.transfer_in;
                    Step::Next(Session::SwapIn(pending), Command::Transfer(transfer_in))
                },
            }
        },
        InnerAction::SwapTokensForExactTokens {
            amount_out,
            amount_in_max,
            to,
            deadline,
            swap_kind,
        } => {
            match pair.swap_tokens_for_exact(
                manager,
                action.kind,
                msg_source,
                program_id,
                block_ts,
                amount_out,
                amount_in_max,
                to,
                deadline,
                swap_kind,
            ) {
                Err(e) => Step::Done(Err(e)),
                Ok(pending) => {
                    let transfer_in = pending.transfer_in;
                    Step::Next(Session::SwapIn(pending), Command::Transfer(transfer_in))
                },
            }
        },
        InnerAction::Skim(to) => {
            match pair.skim(manager, action.kind, msg_source, to) {
                Err(e) => Step::Done(Err(e)),
                Ok(pending) => {
                    let token = pair.token;
                    Step::Next(
                        Session::SkimBalances(pending),
                        Command::GetBalances { token_a: token.0, token_b: token.1, account: program_id },
                    )
                },
            }
        },
        InnerAction::Sync => {
            let token = pair.token;
            Step::Next(
                Session::SyncBalances,
                Command::GetBalances { token_a: token.0, token_b: token.1, account: program_id },
            )
        },
        InnerAction::Transfer { to, amount } => Step::Done(pair.transfer(msg_source, to, amount)),
    }
}

/// Advances a suspended saga with the reply to its outstanding command,
/// either finishing the action or suspending it at the next call.
pub fn resume(
    pair: &mut Pair,
    manager: &mut TransactionManager,
    session: Session,
    reply: Reply,
    program_id: ActorId,
    block_ts: u64,
) -> (r: Step)
    requires
        old(pair).wf(),
        old(manager).wf(),
        session_ok(*old(pair), session),
        reply_fits(session, reply),
        block_ts >= old(pair).last_block_ts,
    ensures
        final(pair).wf(),
        final(manager).wf(),
        match session {
            Session::AddFee(p) => match old(pair).spec_add_liquidity_plan(
                reply->FeeTo_0,
                p.amount,
            ) {
                Err(e) => r == Step::Done(Err::<Event, Error>(e)) && *final(pair) == *old(pair)
                    && !final(manager).actors_map().contains_key(p.msg_source.value),
                Ok(plan) => *final(pair) == *old(pair) && *final(manager) == *old(manager) && (
                r matches Step::Next(s, c) && s matches Session::AddDepositA(p2) && ({
                    &&& session_ok(*final(pair), s)
                    &&& p2.msg_source == p.msg_source && p2.to == p.to
                    &&& p2.amount == p.amount && p2.balance == p.balance
                    &&& p2.is_fee_on == plan.0 && p2.fee_receiver == plan.1
                    &&& p2.fee.val() == plan.2 && p2.liquidity.val() == plan.3
                    &&& c == Command::Transfer(p2.transfer_a)
                    &&& p2.transfer_a == (TransferRequest {
                        transaction_id: (spec_step_id(p.guard.tx_id, 0)) as u64,
                        token: old(pair).token.0,
                        sender: p.msg_source,
                        recipient: program_id,
                        amount: p.amount.0,
                    })
                    &&& p2.transfer_b == (TransferRequest {
                        transaction_id: (spec_step_id(p.guard.tx_id, 1)) as u64,
                        token: old(pair).token.1,
                        sender: p.msg_source,
                        recipient: program_id,
                        amount: p.amount.1,
                    })
                })),
            },
            Session::AddDepositA(p) => *final(pair) == *old(pair) && match reply {
                Reply::Transferred(true) => *final(manager) == *old(manager) && r == Step::Next(
                    Session::AddDepositB(p),
                    Command::Transfer(p.transfer_b),
                ),
                _ => r == Step::Done(Err::<Event, Error>(Error::TransferFailed)) && !final(manager).actors_map().contains_key(p.msg_source.value) && final(manager).nonce() == old(manager).nonce(),
            },
            Session::AddDepositB(p) => match reply {
                Reply::Transferred(true) => {
                    &&& r == Step::Done(
                        Ok::<Event, Error>(
                            Event::AddedLiquidity {
                                sender: p.msg_source,
                                amount_a: p.amount.0,
                                amount_b: p.amount.1,
                                liquidity: p.liquidity,
                            },
                        ),
                    )
                    &&& final(pair).reserve == p.balance
                    &&& final(pair).last_block_ts == block_ts
                    &&& Pair::spec_price_advanced(*old(pair), *final(pair), block_ts)
                    &&& final(pair).token == old(pair).token && final(pair).factory == old(pair).factory
                    &&& p.is_fee_on ==> final(pair).k_last.val() == p.balance.0 * p.balance.1
                    &&& !p.is_fee_on ==> final(pair).k_last == old(pair).k_last
                    &&& final(pair).ft_state.total() == old(pair).ft_state.total() + (
                    if p.first_mint {
                        1000int
                    } else {
                        p.fee.val()
                    }) + p.liquidity.val()
                    &&& forall|a: u64|
                        final(pair).ft_state.balance_val(a) == Pair::spec_add_balance_after(
                            old(pair).ft_state,
                            p,
                            a,
                        )
                    &&& !final(manager).actors_map().contains_key(p.msg_source.value)
                },
                _ => *final(pair) == *old(pair) && *final(manager) == *old(manager) && (r matches
                Step::Next(s, c) && s matches Session::AddCompensate(p2) && p2.msg_source
                    == p.msg_source && session_ok(*final(pair), s) && c == Command::Transfer(
                    TransferRequest {
                        transaction_id: (spec_step_id(p.guard.tx_id, p.guard.step as int)) as u64,
                        token: p.transfer_a.token,
                        sender: p.transfer_a.recipient,
                        recipient: p.msg_source,
                        amount: p.transfer_a.amount,
                    },
                )),
            },
            Session::AddCompensate(p) => r == Step::Done(
                Err::<Event, Error>(Error::TransferFailed),
            ) && *final(pair) == *old(pair) && !final(manager).actors_map().contains_key(
                p.msg_source.value,
            ) && final(manager).nonce() == old(manager).nonce(),
            Session::RemoveFee(p) => match old(pair).spec_remove_liquidity_plan(
                reply->FeeTo_0,
                p.liquidity,
                p.min_amount,
            ) {
                Err(e) => r == Step::Done(Err::<Event, Error>(e)) && *final(pair) == *old(pair)
                    && !final(manager).actors_map().contains_key(p.msg_source.value),
                Ok(plan) => {
                    &&& *final(manager) == *old(manager)
                    &&& final(pair).ft_state.total() == old(pair).ft_state.total()
                        - p.liquidity.val()
                    &&& final(pair).ft_state.balance_val(p.msg_source.value) == old(pair).ft_state.balance_val(p.msg_source.value) - p.liquidity.val()
                    &&& forall|a: u64|
                        a != p.msg_source.value ==> final(pair).ft_state.balance_val(a) == old(pair).ft_state.balance_val(a)
                    &&& final(pair).reserve == old(pair).reserve && final(pair).k_last == old(pair).k_last && final(pair).cumulative_price == old(pair).cumulative_price && final(pair).last_block_ts == old(pair).last_block_ts && final(pair).token == old(pair).token && final(pair).factory == old(pair).factory
                    &&& (r matches Step::Next(s, c) && s matches Session::RemovePayoutA(p2) && ({
                        &&& session_ok(*final(pair), s)
                        &&& p2.msg_source == p.msg_source && p2.to == p.to
                        &&& p2.liquidity == p.liquidity
                        &&& p2.is_fee_on == plan.0 && p2.fee_receiver == plan.1
                        &&& p2.fee.val() == plan.2 && p2.amount == plan.3
                        &&& c == Command::Transfer(p2.transfer_a)
                        &&& p2.transfer_a == (TransferRequest {
                            transaction_id: (spec_step_id(p.guard.tx_id, 0)) as u64,
                            token: old(pair).token.0,
                            sender: program_id,
                            recipient: p.to,
                            amount: plan.3.0,
                        })
                        &&& p2.transfer_b == (TransferRequest {
                            transaction_id: (spec_step_id(p.guard.tx_id, 1)) as u64,
                            token: old(pair).token.1,
                            sender: program_id,
                            recipient: p.to,
                            amount: plan.3.1,
                        })
                    }))
                },
            },
            Session::RemovePayoutA(p) => match reply {
                Reply::Transferred(true) => *final(pair) == *old(pair) && *final(manager) == *old(manager) && r == Step::Next(Session::RemovePayoutB(p), Command::Transfer(p.transfer_b)),
                _ => {
                    // The burn is compensated: the caller holds its shares
                    // again.
                    &&& r == Step::Done(Err::<Event, Error>(Error::TransferFailed))
                    &&& final(pair).ft_state.total() == old(pair).ft_state.total()
                        + p.liquidity.val()
                    &&& final(pair).ft_state.balance_val(p.msg_source.value) == old(pair).ft_state.balance_val(p.msg_source.value) + p.liquidity.val()
                    &&& forall|a: u64|
                        a != p.msg_source.value ==> final(pair).ft_state.balance_val(a) == old(pair).ft_state.balance_val(a)
                    &&& final(pair).reserve == old(pair).reserve && final(pair).cumulative_price
                        == old(pair).cumulative_price && final(pair).k_last == old(pair).k_last
                        && final(pair).last_block_ts == old(pair).last_block_ts
                    &&& !final(manager).actors_map().contains_key(p.msg_source.value)
                },
            },
            Session::RemovePayoutB(p) => match reply {
                Reply::Transferred(true) => {
                    &&& r == Step::Done(
                        Ok::<Event, Error>(
                            Event::RemovedLiquidity {
                                sender: p.msg_source,
                                amount_a: p.amount.0,
                                amount_b: p.amount.1,
                                to: p.to,
                            },
                        ),
                    )
                    &&& final(pair).reserve == (
                        (old(pair).reserve.0 - p.amount.0) as u128,
                        (old(pair).reserve.1 - p.amount.1) as u128,
                    )
                    &&& final(pair).last_block_ts == block_ts
                    &&& Pair::spec_price_advanced(*old(pair), *final(pair), block_ts)
                    &&& p.is_fee_on ==> final(pair).k_last.val() == (old(pair).reserve.0
                        - p.amount.0) * (old(pair).reserve.1 - p.amount.1)
                    &&& !p.is_fee_on ==> final(pair).k_last == old(pair).k_last
                    &&& final(pair).ft_state.total() == old(pair).ft_state.total() + p.fee.val()
                    &&& forall|a: u64|
                        final(pair).ft_state.balance_val(a) == old(pair).ft_state.balance_val(a) + (
                        if a == p.fee_receiver.value {
                            p.fee.val()
                        } else {
                            0int
                        })
                    &&& !final(manager).actors_map().contains_key(p.msg_source.value)
                },
                // The deliberate asymmetric-risk point: the burn stays burned
                // and the reserves untouched.
                _ => *final(pair) == *old(pair) && r == Step::Done(
                    Err::<Event, Error>(Error::TransferFailed),
                ) && !final(manager).actors_map().contains_key(p.msg_source.value),
            },
            Session::SwapIn(p) => *final(pair) == *old(pair) && match reply {
                Reply::Transferred(true) => *final(manager) == *old(manager) && r == Step::Next(
                    Session::SwapOut(p),
                    Command::Transfer(p.transfer_out),
                ),
                _ => r == Step::Done(Err::<Event, Error>(Error::TransferFailed)) && !final(manager).actors_map().contains_key(p.msg_source.value),
            },
            Session::SwapOut(p) => match reply {
                Reply::Transferred(true) => {
                    &&& r == Step::Done(
                        Ok::<Event, Error>(
                            Event::Swap {
                                sender: p.msg_source,
                                in_amount: p.in_amount,
                                out_amount: p.out_amount,
                                to: p.to,
                                kind: p.kind,
                            },
                        ),
                    )
                    &&& final(pair).reserve == (match p.kind {
                        SwapKind::AForB => (
                            (old(pair).reserve.0 + p.in_amount) as u128,
                            (old(pair).reserve.1 - p.out_amount) as u128,
                        ),
                        SwapKind::BForA => (
                            (old(pair).reserve.0 - p.out_amount) as u128,
                            (old(pair).reserve.1 + p.in_amount) as u128,
                        ),
                    })
                    &&& final(pair).last_block_ts == block_ts
                    &&& Pair::spec_price_advanced(*old(pair), *final(pair), block_ts)
                    &&& final(pair).ft_state == old(pair).ft_state && final(pair).k_last == old(pair).k_last
                    &&& final(pair).reserve.0 * final(pair).reserve.1 >= old(pair).reserve.0 * old(pair).reserve.1
                    &&& !final(manager).actors_map().contains_key(p.msg_source.value)
                },
                _ => *final(pair) == *old(pair) && *final(manager) == *old(manager) && (r matches
                Step::Next(s, c) && s matches Session::SwapCompensate(p2) && p2.msg_source
                    == p.msg_source && session_ok(*final(pair), s) && c == Command::Transfer(
                    TransferRequest {
                        transaction_id: (spec_step_id(p.guard.tx_id, p.guard.step as int)) as u64,
                        token: p.transfer_in.token,
                        sender: p.transfer_in.recipient,
                        recipient: p.msg_source,
                        amount: p.transfer_in.amount,
                    },
                )),
            },
            Session::SwapCompensate(p) => *final(pair) == *old(pair) && r == Step::Done(
                Err::<Event, Error>(Error::TransferFailed),
            ) && !final(manager).actors_map().contains_key(p.msg_source.value),
            Session::SkimBalances(p) => *final(pair) == *old(pair) && match reply->Balances_0 {
                Err(text) => r == Step::Done(Err::<Event, Error>(Error::ContractError(text)))
                    && !final(manager).actors_map().contains_key(p.msg_source.value),
                Ok(cb) => if cb.0 < old(pair).reserve.0 || cb.1 < old(pair).reserve.1 {
                    r == Step::Done(Err::<Event, Error>(Error::Overflow)) && !final(manager).actors_map().contains_key(p.msg_source.value)
                } else {
                    *final(manager) == *old(manager) && (r matches Step::Next(s, c) && s matches
                    Session::SkimPayoutA(p2) && ({
                        &&& session_ok(*final(pair), s)
                        &&& p2.msg_source == p.msg_source && p2.to == p.to
                        &&& p2.excess == (
                            (cb.0 - old(pair).reserve.0) as u128,
                            (cb.1 - old(pair).reserve.1) as u128,
                        )
                        &&& c == Command::Transfer(p2.transfer_a)
                        &&& p2.transfer_a == (TransferRequest {
                            transaction_id: (spec_step_id(p.guard.tx_id, 0)) as u64,
                            token: old(pair).token.0,
                            sender: program_id,
                            recipient: p.to,
                            amount: p2.excess.0,
                        })
                        &&& p2.transfer_b == (TransferRequest {
                            transaction_id: (spec_step_id(p.guard.tx_id, 1)) as u64,
                            token: old(pair).token.1,
                            sender: program_id,
                            recipient: p.to,
                            amount: p2.excess.1,
                        })
                    }))
                },
            },
            Session::SkimPayoutA(p) => *final(pair) == *old(pair) && match reply {
                Reply::Transferred(true) => *final(manager) == *old(manager) && r == Step::Next(
                    Session::SkimPayoutB(p),
                    Command::Transfer(p.transfer_b),
                ),
                _ => r == Step::Done(Err::<Event, Error>(Error::TransferFailed)) && !final(manager).actors_map().contains_key(p.msg_source.value),
            },
            Session::SkimPayoutB(p) => *final(pair) == *old(pair) && match reply {
                Reply::Transferred(true) => r == Step::Done(
                    Ok::<Event, Error>(
                        Event::Skim { amount_a: p.excess.0, amount_b: p.excess.1, to: p.to },
                    ),
                ) && !final(manager).actors_map().contains_key(p.msg_source.value),
                _ => r == Step::Done(Err::<Event, Error>(Error::TransferFailed)) && !final(manager).actors_map().contains_key(p.msg_source.value),
            },
            Session::SyncBalances => *final(manager) == *old(manager) && match reply->Balances_0 {
                Err(text) => *final(pair) == *old(pair) && r == Step::Done(
                    Err::<Event, Error>(Error::ContractError(text)),
                ),
                Ok(balance) => {
                    &&& r == Step::Done(
                        Ok::<Event, Error>(
                            Event::Sync { reserve_a: balance.0, reserve_b: balance.1 },
                        ),
                    )
                    &&& final(pair).reserve == balance
                    &&& final(pair).last_block_ts == block_ts
                    &&& Pair::spec_price_advanced(*old(pair), *final(pair), block_ts)
                    &&& final(pair).ft_state == old(pair).ft_state && final(pair).k_last == old(pair).k_last && final(pair).token == old(pair).token && final(pair).factory == old(pair).factory
                },
            },
        },
{
    match session {
        Session::AddFee(pending) => {
            let fee_reply = match reply {
                Reply::FeeTo(f) => f,
                _ => None,
            };
            match pair.add_liquidity_with_fee(manager, pending, fee_reply, program_id) {
                Err(e) => Step::Done(Err(e)),
                Ok(ready) => {
                    let transfer_a = ready.transfer_a;
                    Step::Next(Session::AddDepositA(ready), Command::Transfer(transfer_a))
                },
            }
        },
        Session::AddDepositA(ready) => {
            let ok = match reply {
                Reply::Transferred(ok) => ok,
                _ => false,
            };
            if ok {
                let transfer_b = ready.transfer_b;
                Step::Next(Session::AddDepositB(ready), Command::Transfer(transfer_b))
            } else {
                Step::Done(Err(Pair::add_liquidity_failed(manager, ready)))
            }
        },
        Session::AddDepositB(ready) => {
            let ok = match reply {
                Reply::Transferred(ok) => ok,
                _ => false,
            };
            if ok {
                Step::Done(Ok(pair.add_liquidity_commit(manager, ready, block_ts)))
            } else {
                let mut ready = ready;
                let compensation = Pair::add_liquidity_compensation(&mut ready);
                Step::Next(Session::AddCompensate(ready), Command::Transfer(compensation))
            }
        },
        Session::AddCompensate(ready) => {
            // Whether or not the compensation went through, the action
            // failed; the caller keeps or regains its deposit either way.
            Step::Done(Err(Pair::add_liquidity_failed(manager, ready)))
        },
        Session::RemoveFee(pending) => {
            let fee_reply = match reply {
                Reply::FeeTo(f) => f,
                _ => None,
            };
            match pair.remove_liquidity_with_fee(manager, pending, fee_reply, program_id) {
                Err(e) => Step::Done(Err(e)),
                Ok(ready) => {
                    let transfer_a = ready.transfer_a;
                    Step::Next(Session::RemovePayoutA(ready), Command::Transfer(transfer_a))
                },
            }
        },
        Session::RemovePayoutA(ready) => {
            let ok = match reply {
                Reply::Transferred(ok) => ok,
                _ => false,
            };
            if ok {
                let transfer_b = ready.transfer_b;
                Step::Next(Session::RemovePayoutB(ready), Command::Transfer(transfer_b))
            } else {
                Step::Done(Err(pair.remove_liquidity_first_failed(manager, ready)))
            }
        },
        Session::RemovePayoutB(ready) => {
            let ok = match reply {
                Reply::Transferred(ok) => ok,
                _ => false,
            };
            if ok {
                Step::Done(Ok(pair.remove_liquidity_commit(manager, ready, block_ts)))
            } else {
                Step::Done(Err(Pair::remove_liquidity_second_failed(manager, ready)))
            }
        },
        Session::SwapIn(pending) => {
            let ok = match reply {
                Reply::Transferred(ok) => ok,
                _ => false,
            };
            if ok {
                let transfer_out = pending.transfer_out;
                Step::Next(Session::SwapOut(pending), Command::Transfer(transfer_out))
            } else {
                Step::Done(Err(Pair::swap_failed(manager, pending)))
            }
        },
        Session::SwapOut(pending) => {
            let ok = match reply {
                Reply::Transferred(ok) => ok,
                _ => false,
            };
            if ok {
                Step::Done(Ok(pair.swap_commit(manager, pending, block_ts)))
            } else {
                let mut pending = pending;
                let compensation = Pair::swap_compensation(&mut pending);
                Step::Next(Session::SwapCompensate(pending), Command::Transfer(compensation))
            }
        },
        Session::SwapCompensate(pending) => {
            Step::Done(Err(Pair::swap_failed(manager, pending)))
        },
        Session::SkimBalances(pending) => {
            let balances = match reply {
                Reply::Balances(b) => b,
                _ => Err(String::new()),
            };
            match balances {
                Err(text) => {
                    // The balance query itself failed: the runtime error is
                    // reported and the cache entry purged.
                    manager.release(pending.guard);
                    Step::Done(Err(Error::ContractError(text)))
                },
                Ok(contract_balance) => {
                    match pair.skim_plan(manager, pending, contract_balance, program_id) {
                        Err(e) => Step::Done(Err(e)),
                        Ok(ready) => {
                            let transfer_a = ready.transfer_a;
                            Step::Next(Session::SkimPayoutA(ready), Command::Transfer(transfer_a))
                        },
                    }
                },
            }
        },
        Session::SkimPayoutA(ready) => {
            let ok = match reply {
                Reply::Transferred(ok) => ok,
                _ => false,
            };
            if ok {
                let transfer_b = ready.transfer_b;
                Step::Next(Session::SkimPayoutB(ready), Command::Transfer(transfer_b))
            } else {
                Step::Done(Err(Pair::skim_failed(manager, ready)))
            }
        },
        Session::SkimPayoutB(ready) => {
            let ok = match reply {
                Reply::Transferred(ok) => ok,
                _ => false,
            };
            if ok {
                Step::Done(Ok(Pair::skim_commit(manager, ready)))
            } else {
                Step::Done(Err(Pair::skim_failed(manager, ready)))
            }
        },
        Session::SyncBalances => {
            let balances = match reply {
                Reply::Balances(b) => b,
                _ => Err(String::new()),
            };
            match balances {
                Err(text) => Step::Done(Err(Error::ContractError(text))),
                Ok(balance) => Step::Done(Ok(pair.sync(balance, block_ts))),
            }
        },
    }
}

} // verus!
