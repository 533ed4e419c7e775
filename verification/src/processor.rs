use vstd::prelude::*;

use crate::account::{AccountInfo, Pubkey};
use crate::codec::split_first;
use crate::error::ProgramError;
use crate::instructions::{make_first_step, start_make};
use crate::steps::{entry_result, final_step, Step, StepView};

verus! {

/// The first step of the escrow program's entrypoint for `n_accounts` accounts and the
/// instruction data `data`.
///
/// The first byte selects the instruction; `0` is make, which runs with its result dropped.
/// Any other byte is an unknown instruction, whose error is dropped as well.
pub open spec fn entry_first_step(program_id: Pubkey, n_accounts: nat, data: Seq<u8>) -> StepView {
    if data.len() == 0 {
        StepView::Return(Err(ProgramError::InvalidInstructionData))
    } else if data[0] == 0 {
        make_first_step(program_id, n_accounts, true)
    } else {
        StepView::Return(Ok(()))
    }
}

/// The entrypoint of the escrow program.
///
/// Empty instruction data is refused as invalid. Otherwise the first byte selects the
/// instruction, and the entrypoint succeeds whatever the selected instruction does: make
/// (`0`) still performs its steps, but neither its error nor that of an unknown instruction is
/// passed on.
pub fn process_instruction(
    program_id: &Pubkey,
    accounts: &[AccountInfo],
    instruction_data: &[u8],
) -> (s: Step)
    ensures
        s@ == entry_first_step(*program_id, accounts@.len(), instruction_data@),
{
    let (discriminator, _data) = match split_first(instruction_data) {
        Ok(parts) => parts,
        Err(e) => return Step::Return(Err(e)),
    };
    if discriminator == 0 {
        start_make(program_id, accounts, true)
    } else {
        Step::Return(Ok(()))
    }
}

/// The escrow program's entrypoint fails exactly on empty instruction data, whatever the runtime
/// answers to the steps it asks for.
pub proof fn lemma_entrypoint_result(
    program_id: Pubkey,
    n_accounts: nat,
    data: Seq<u8>,
    minimum_balance: Result<u64, ProgramError>,
    invoked: Result<(), ProgramError>,
)
    ensures
        entry_result(final_step(entry_first_step(program_id, n_accounts, data), minimum_balance, invoked)) == (if data.len()
            == 0 {
            Err(ProgramError::InvalidInstructionData)
        } else {
            Ok(())
        }),
{
}

/// The entrypoint refuses empty data with `InvalidInstructionData` and answers any first byte
/// other than `0` with success at once. For `0` with nine accounts it runs make for the program id
/// it was given: a minimum-balance lookup for 105 bytes, then one unsigned create-account call
/// from account 0 to account 1 with the looked-up lamports, 105 bytes and that program id as
/// owner; whatever the lookup or the call answer, it leaves with success. For `0` with another
/// number of accounts it succeeds at once.
pub proof fn lemma_entrypoint_dispatch(
    program_id: Pubkey,
    n_accounts: nat,
    data: Seq<u8>,
    lamports: u64,
    e: ProgramError,
    invoked: Result<(), ProgramError>,
)
    ensures
        data.len() == 0 ==> entry_first_step(program_id, n_accounts, data) == StepView::Return(
            Err(ProgramError::InvalidInstructionData),
        ),
        data.len() > 0 && data[0] != 0 ==> entry_first_step(program_id, n_accounts, data)
            == StepView::Return(Ok(())),
        data.len() > 0 && data[0] == 0 && n_accounts != 9 ==> entry_first_step(
            program_id,
            n_accounts,
            data,
        ) == StepView::Return(Ok(())),
        data.len() > 0 && data[0] == 0 && n_accounts == 9 ==> ({
            let s = entry_first_step(program_id, n_accounts, data);
            let next = s->MinimumBalance_next;
            let after = next.resumed(Ok(lamports));
            let call = after->Invoke_call;
            &&& s is MinimumBalance
            &&& s->MinimumBalance_space == 105
            &&& next.program_id == program_id
            &&& after is Invoke
            &&& call.from == 0
            &&& call.to == 1
            &&& call.lamports == lamports
            &&& call.space == 105
            &&& call.owner == program_id@
            &&& call.seeds.len() == 0
            &&& after->Invoke_next.resumed(invoked) == StepView::Return(Ok(()))
            &&& next.resumed(Err(e)) == StepView::Return(Ok(()))
        }),
{
}

} // verus!
