//! The pair contract's interface types: inbound actions, result events and
//! error variants, plus the fingerprints the transaction cache stores.

use vstd::prelude::*;
use crate::actor::ActorId;
use crate::ledger::Ledger;
use crate::u256::U256;

verus! {

/// The minimal liquidity amount.
///
/// To ameliorate rounding errors and increase the theoretical minimum tick
/// size for liquidity provision, the contract locks this amount of liquidity
/// tokens on the first mint by minting it to the zero identity.
pub const MINIMUM_LIQUIDITY: u64 = 1000;

/// What an inbound action asks the pair to do.
#[derive(Clone, Copy, PartialEq, Eq, Structural, Debug)]
pub enum InnerAction {
    /// Adds liquidity from the caller's fungible tokens and mints liquidity
    /// tokens to `to`.
    AddLiquidity {
        amount_a_desired: u128,
        amount_b_desired: u128,
        amount_a_min: u128,
        amount_b_min: u128,
        to: ActorId,
        /// Timestamp (in ms) after which this action is rejected.
        deadline: u64,
    },
    /// Burns the caller's liquidity tokens and returns the proportional
    /// amounts of both fungible tokens to `to`.
    RemoveLiquidity {
        liquidity: U256,
        amount_a_min: u128,
        amount_b_min: u128,
        to: ActorId,
        deadline: u64,
    },
    /// Swaps an exact amount of input tokens for as many output tokens as
    /// possible.
    SwapExactTokensForTokens {
        amount_in: u128,
        amount_out_min: u128,
        to: ActorId,
        deadline: u64,
        swap_kind: SwapKind,
    },
    /// Swaps as few input tokens as possible for an exact amount of output
    /// tokens.
    SwapTokensForExactTokens {
        amount_out: u128,
        amount_in_max: u128,
        to: ActorId,
        deadline: u64,
        swap_kind: SwapKind,
    },
    /// Transfers the excess of the actual token balances over the recorded
    /// reserves to the given recipient.
    Skim(ActorId),
    /// Sets the recorded reserves equal to the actual token balances.
    Sync,
    /// Transfers liquidity tokens from the caller.
    Transfer { to: ActorId, amount: U256 },
}

/// An inbound action together with how it should be admitted.
#[derive(Clone, Copy, PartialEq, Eq, Structural, Debug)]
pub struct Action {
    pub action: InnerAction,
    pub kind: TransactionKind,
}

impl Action {
    pub fn new(action: InnerAction) -> (r: Self)
        ensures
            r == (Action { action, kind: TransactionKind::New }),
    {
        Self { action, kind: TransactionKind::New }
    }

    pub fn to_retry(self) -> (r: Self)
        ensures
            r == (Action { action: self.action, kind: TransactionKind::Retry }),
    {
        Self { action: self.action, kind: TransactionKind::Retry }
    }
}

/// The result of a successfully processed [`Action`].
#[derive(Clone, Copy, PartialEq, Eq, Structural, Debug)]
pub enum Event {
    AddedLiquidity { sender: ActorId, amount_a: u128, amount_b: u128, liquidity: U256 },
    RemovedLiquidity { sender: ActorId, amount_a: u128, amount_b: u128, to: ActorId },
    Swap { sender: ActorId, in_amount: u128, out_amount: u128, to: ActorId, kind: SwapKind },
    Sync { reserve_a: u128, reserve_b: u128 },
    Skim { amount_a: u128, amount_b: u128, to: ActorId },
    Transfer { from: ActorId, to: ActorId, amount: U256 },
}

/// Which token is the swap input.
#[derive(Clone, Copy, PartialEq, Eq, Structural, Debug)]
pub enum SwapKind {
    AForB,
    BForA,
}

/// Error variants of a failed [`Action`].
#[derive(Clone, PartialEq, Eq, Debug)]
pub enum Error {
    /// A runtime-level failure (a reply could not be decoded or sent).
    ContractError(String),
    /// An insufficient amount of the A or B token was provided.
    InsufficientAmount,
    /// A specified amount limit of the former tokens has been exceeded.
    InsufficientFormerAmount,
    /// A specified amount limit of the latter tokens has been exceeded.
    InsufficientLatterAmount,
    /// An insufficient amount of liquidity tokens was provided, or the
    /// contract does not have enough of them to continue an action.
    InsufficientLiquidity,
    /// An invalid recipient was specified.
    InvalidRecipient,
    /// The zero identity was found where it is forbidden.
    ZeroActorId,
    /// One of the pair's token contracts failed to complete a transfer.
    TransferFailed,
    /// An overflow occurred during calculations.
    Overflow,
    /// A specified deadline for an action was exceeded.
    DeadlineExceeded,
    /// The contract failed to get the fee receiver from the linked Factory.
    FeeToGettingFailed,
    TxCacheError(TransactionCacheError),
}

/// The fingerprint of an admitted action, kept so that a retry can be
/// validated against the resolved parameters of the original attempt.
#[derive(Clone, Copy, PartialEq, Eq, Structural, Debug)]
pub enum CachedAction {
    Swap(u128),
    AddLiquidity(u128, u128),
    RemovedLiquidity(U256),
    Other,
}

/// Determines how an action is admitted: as a fresh transaction or as a
/// retry of the caller's cached one.
#[derive(Clone, Copy, PartialEq, Eq, Structural, Debug, Default)]
pub enum TransactionKind {
    #[default]
    New,
    Retry,
}

/// Transaction cache error variants.
#[derive(Clone, Copy, PartialEq, Eq, Structural, Debug)]
pub enum TransactionCacheError {
    /// There is no cached transaction for the caller.
    TransactionNotFound,
    /// An action for retrying does not match its cached counterpart.
    MismatchedAction,
    /// Too many transaction IDs were acquired in one action.
    StepOverflow,
}

/// The contract state, as state-introspection queries see it.
pub struct State {
    /// The Factory from which the fee receiver is obtained.
    pub factory: ActorId,
    /// The pair of token contracts used for swaps.
    pub token: (ActorId, ActorId),
    /// The recorded reserve of each token.
    pub reserve: (u128, u128),
    /// The time-weighted cumulative prices.
    pub cumulative_price: (U256, U256),
    /// When the reserves were last changed.
    pub last_block_ts: u64,
    /// The reserve product at the last fee settlement.
    pub k_last: U256,
    /// The liquidity-share ledger.
    pub ft_state: Ledger,
    /// Every cached `(actor, fingerprint)` transaction entry.
    pub cached_actions: Vec<(ActorId, CachedAction)>,
}

/// A pair of reserves widened to 256 bits, as the wide arithmetic takes it.
pub struct U256PairTuple(pub (U256, U256));

impl From<(u128, u128)> for U256PairTuple {
    fn from(value: (u128, u128)) -> (r: Self) {
        U256PairTuple((U256 { lo: value.0, hi: 0 }, U256 { lo: value.1, hi: 0 }))
    }
}

impl vstd::std_specs::convert::FromSpecImpl<(u128, u128)> for U256PairTuple {
    open spec fn obeys_from_spec() -> bool {
        true
    }

    open spec fn from_spec(v: (u128, u128)) -> Self {
        U256PairTuple((U256 { lo: v.0, hi: 0 }, U256 { lo: v.1, hi: 0 }))
    }
}

impl Error {
    /// The error a failed cache lookup is reported as.
    pub fn from_cache(error: TransactionCacheError) -> (r: Self)
        ensures
            r == Error::TxCacheError(error),
    {
        Error::TxCacheError(error)
    }
}

} // verus!
