//! A retryable instruction over a token contract: one transaction message
//! and, optionally, the compensating message that undoes it.
//!
//! An instruction is a tiny state machine. Running it sends the transaction
//! and records whether it went through; aborting a completed instruction
//! sends the compensation. Replaying either step on a finished or failed
//! instruction is harmless, which is what makes a workflow built from
//! instructions safe to retry.

use vstd::prelude::*;
use crate::actor::ActorId;

verus! {

/// The payload of a message to a token contract.
#[derive(Clone, Copy, PartialEq, Eq, Structural, Debug)]
pub enum TokenPayload {
    Transfer { sender: ActorId, recipient: ActorId, amount: u128 },
    Approve { approved_account: ActorId, amount: u128 },
}

/// A message to a token contract, tagged with the transaction id under which
/// the token contract deduplicates replays.
#[derive(Clone, Copy, PartialEq, Eq, Structural, Debug)]
pub struct TokenAction {
    pub transaction_id: u64,
    pub payload: TokenPayload,
}

/// Where an instruction stands.
#[derive(Clone, Copy, PartialEq, Eq, Structural, Debug)]
pub enum InstructionState {
    /// The transaction has not gone through yet.
    ScheduledRun,
    /// The transaction went through; only the compensation may still run.
    ScheduledAbort,
    /// The transaction failed for good.
    RunWithError,
    /// The compensation went through.
    Finished,
}

/// One step of a workflow: a transaction message and its compensation.
#[derive(Clone, Copy, PartialEq, Eq, Structural, Debug)]
pub struct Instruction {
    pub state: InstructionState,
    /// The token contract addressed.
    pub address: ActorId,
    pub transaction: TokenAction,
    pub compensation: Option<TokenAction>,
}

impl Instruction {
    pub fn new(address: ActorId, transaction: TokenAction, compensation: Option<TokenAction>) -> (r:
        Instruction)
        ensures
            r == (Instruction {
                state: InstructionState::ScheduledRun,
                address,
                transaction,
                compensation,
            }),
    {
        Instruction { state: InstructionState::ScheduledRun, address, transaction, compensation }
    }

    /// The message [`Instruction::start`] sends, when it sends one.
    pub fn start_request(&self) -> (r: Option<(ActorId, TokenAction)>)
        ensures
            r == if self.state is ScheduledRun {
                Some((self.address, self.transaction))
            } else {
                None::<(ActorId, TokenAction)>
            },
    {
        match self.state {
            InstructionState::ScheduledRun => Some((self.address, self.transaction)),
            _ => None,
        }
    }

    /// Runs the instruction, `reply` being whether the sent transaction was
    /// acknowledged (ignored unless a message was sent): a fresh instruction
    /// advances or fails for good, a failed one keeps failing, and a
    /// completed one succeeds without resending.
    pub fn start(&mut self, reply: bool) -> (r: Result<(), ()>)
        ensures
            final(self).address == old(self).address,
            final(self).transaction == old(self).transaction,
            final(self).compensation == old(self).compensation,
            match old(self).state {
                InstructionState::ScheduledRun => if reply {
                    final(self).state == InstructionState::ScheduledAbort && r == Ok::<(), ()>(())
                } else {
                    final(self).state == InstructionState::RunWithError && r == Err::<(), ()>(())
                },
                InstructionState::RunWithError => *final(self) == *old(self) && r == Err::<
                    (),
                    (),
                >(()),
                _ => *final(self) == *old(self) && r == Ok::<(), ()>(()),
            },
    {
        match self.state {
            InstructionState::ScheduledRun => {
                if reply {
                    self.state = InstructionState::ScheduledAbort;
                    Ok(())
                } else {
                    self.state = InstructionState::RunWithError;
                    Err(())
                }
            },
            InstructionState::RunWithError => Err(()),
            _ => Ok(()),
        }
    }

    /// The message [`Instruction::abort`] sends, when it sends one. An
    /// instruction that went through must carry a compensation to abort.
    pub fn abort_request(&self) -> (r: Option<(ActorId, TokenAction)>)
        requires
            self.state is ScheduledAbort ==> self.compensation is Some,
        ensures
            r == if self.state is ScheduledAbort {
                Some((self.address, self.compensation->Some_0))
            } else {
                None::<(ActorId, TokenAction)>
            },
    {
        match self.state {
            InstructionState::ScheduledAbort => {
                match self.compensation {
                    Some(compensation) => Some((self.address, compensation)),
                    None => {
                        proof {
                            assert(false);
                        }
                        None
                    },
                }
            },
            _ => None,
        }
    }

    /// Aborts the instruction, `reply` being whether the sent compensation
    /// was acknowledged: a completed instruction compensates or stays
    /// abortable, a finished one stays finished, and anything else cannot be
    /// aborted.
    pub fn abort(&mut self, reply: bool) -> (r: Result<(), ()>)
        requires
            old(self).state is ScheduledAbort ==> old(self).compensation is Some,
        ensures
            final(self).address == old(self).address,
            final(self).transaction == old(self).transaction,
            final(self).compensation == old(self).compensation,
            match old(self).state {
                InstructionState::ScheduledAbort => if reply {
                    final(self).state == InstructionState::Finished && r == Ok::<(), ()>(())
                } else {
                    *final(self) == *old(self) && r == Err::<(), ()>(())
                },
                InstructionState::Finished => *final(self) == *old(self) && r == Ok::<(), ()>(()),
                _ => *final(self) == *old(self) && r == Err::<(), ()>(()),
            },
    {
        match self.state {
            InstructionState::ScheduledAbort => {
                if reply {
                    self.state = InstructionState::Finished;
                    Ok(())
                } else {
                    Err(())
                }
            },
            InstructionState::Finished => Ok(()),
            _ => Err(()),
        }
    }
}

/// A transfer instruction whose compensation transfers the amount back.
pub fn create_forward_transfer_instruction(
    transaction_id: u64,
    token_address: ActorId,
    from: ActorId,
    to: ActorId,
    token_amount: u128,
) -> (r: Instruction)
    ensures
        r == (Instruction {
            state: InstructionState::ScheduledRun,
            address: token_address,
            transaction: TokenAction {
                transaction_id,
                payload: TokenPayload::Transfer { sender: from, recipient: to, amount: token_amount },
            },
            compensation: Some(
                TokenAction {
                    transaction_id,
                    payload: TokenPayload::Transfer {
                        sender: to,
                        recipient: from,
                        amount: token_amount,
                    },
                },
            ),
        }),
{
    Instruction::new(
        token_address,
        TokenAction {
            transaction_id,
            payload: TokenPayload::Transfer { sender: from, recipient: to, amount: token_amount },
        },
        Some(
            TokenAction {
                transaction_id,
                payload: TokenPayload::Transfer { sender: to, recipient: from, amount: token_amount },
            },
        ),
    )
}

/// A transfer instruction with no compensation: the final leg of a swap.
pub fn create_swap_transfer_instruction(
    transaction_id: u64,
    token_address: ActorId,
    from: ActorId,
    to: ActorId,
    token_amount: u128,
) -> (r: Instruction)
    ensures
        r == (Instruction {
            state: InstructionState::ScheduledRun,
            address: token_address,
            transaction: TokenAction {
                transaction_id,
                payload: TokenPayload::Transfer { sender: from, recipient: to, amount: token_amount },
            },
            compensation: None,
        }),
{
    Instruction::new(
        token_address,
        TokenAction {
            transaction_id,
            payload: TokenPayload::Transfer { sender: from, recipient: to, amount: token_amount },
        },
        None,
    )
}

/// An approval instruction; the token interface offers no revocation, so it
/// has no compensation.
pub fn create_approval_instruction(
    transaction_id: u64,
    token_address: ActorId,
    to: ActorId,
    token_amount: u128,
) -> (r: Instruction)
    ensures
        r == (Instruction {
            state: InstructionState::ScheduledRun,
            address: token_address,
            transaction: TokenAction {
                transaction_id,
                payload: TokenPayload::Approve { approved_account: to, amount: token_amount },
            },
            compensation: None,
        }),
{
    Instruction::new(
        token_address,
        TokenAction {
            transaction_id,
            payload: TokenPayload::Approve { approved_account: to, amount: token_amount },
        },
        None,
    )
}

} // verus!
