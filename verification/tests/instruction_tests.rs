use dex::actor::ActorId;
use dex::instruction::{
    create_approval_instruction, create_forward_transfer_instruction,
    create_swap_transfer_instruction, InstructionState, TokenAction, TokenPayload,
};

fn actor(value: u64) -> ActorId {
    ActorId::new(value)
}

#[test]
fn forward_transfer_instruction_round_trip() {
    let mut instruction = create_forward_transfer_instruction(42, actor(2), actor(5), actor(6), 99);
    assert_eq!(instruction.state, InstructionState::ScheduledRun);
    assert_eq!(
        instruction.start_request(),
        Some((
            actor(2),
            TokenAction {
                transaction_id: 42,
                payload: TokenPayload::Transfer {
                    sender: actor(5),
                    recipient: actor(6),
                    amount: 99
                },
            }
        ))
    );
    // Running it successfully schedules the abort...
    assert_eq!(instruction.start(true), Ok(()));
    assert_eq!(instruction.state, InstructionState::ScheduledAbort);
    // ...and running it again does not resend.
    assert_eq!(instruction.start_request(), None);
    assert_eq!(instruction.start(false), Ok(()));

    // Aborting sends the compensation, the reversed transfer.
    assert_eq!(
        instruction.abort_request(),
        Some((
            actor(2),
            TokenAction {
                transaction_id: 42,
                payload: TokenPayload::Transfer {
                    sender: actor(6),
                    recipient: actor(5),
                    amount: 99
                },
            }
        ))
    );
    // A failed compensation can be retried; a successful one finishes.
    assert_eq!(instruction.abort(false), Err(()));
    assert_eq!(instruction.state, InstructionState::ScheduledAbort);
    assert_eq!(instruction.abort(true), Ok(()));
    assert_eq!(instruction.state, InstructionState::Finished);
    assert_eq!(instruction.abort(true), Ok(()));
}

#[test]
fn failed_instruction_keeps_failing() {
    let mut instruction = create_swap_transfer_instruction(7, actor(2), actor(5), actor(6), 10);
    assert_eq!(instruction.compensation, None);
    assert_eq!(instruction.start(false), Err(()));
    assert_eq!(instruction.state, InstructionState::RunWithError);
    assert_eq!(instruction.start(true), Err(()));
    // A failed instruction cannot be aborted.
    assert_eq!(instruction.abort(true), Err(()));
}

#[test]
fn approval_instruction_carries_no_compensation() {
    let instruction = create_approval_instruction(3, actor(2), actor(9), 1000);
    assert_eq!(
        instruction.transaction,
        TokenAction {
            transaction_id: 3,
            payload: TokenPayload::Approve { approved_account: actor(9), amount: 1000 },
        }
    );
    assert_eq!(instruction.compensation, None);
    // An instruction that never ran cannot be aborted.
    let mut instruction = instruction;
    assert_eq!(instruction.abort(true), Err(()));
}
