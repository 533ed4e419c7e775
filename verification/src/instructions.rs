use vstd::prelude::*;

use crate::account::{AccountInfo, Pubkey};
use crate::error::ProgramError;
use crate::state::{escrow_bytes, Escrow, EscrowView};
use crate::steps::{
    final_step, finished, AwaitMinimumBalance, CreateAccount, CreateAccountView, Flow, Step,
    StepView,
};

verus! {

/// The escrow program's make instruction: a maker opens an offer.
pub struct Make {}

/// Number of accounts the make instruction takes: the maker, the escrow, the vault, the maker's
/// token accounts for mints A and B, the two mints, the token program and the system program.
pub const MAKE_ACCOUNTS: usize = 9;

/// Position of the maker among the make instruction's accounts.
pub const MAKER_INDEX: usize = 0;

/// Position of the escrow account among the make instruction's accounts.
pub const ESCROW_INDEX: usize = 1;

/// The first step of the make instruction for `n_accounts` accounts.
pub open spec fn make_first_step(program_id: Pubkey, n_accounts: nat, result_dropped: bool) -> StepView {
    if n_accounts != MAKE_ACCOUNTS {
        StepView::Return(
            finished(Flow::Make { result_dropped }, Err(ProgramError::NotEnoughAccountKeys)),
        )
    } else {
        StepView::MinimumBalance {
            space: Escrow::LEN,
            next: AwaitMinimumBalance { program_id, flow: Flow::Make { result_dropped } },
        }
    }
}

/// The unsigned create-account call that opens the escrow account with `lamports`: from the
/// maker to the escrow account, [`Escrow::LEN`] bytes, owned by the program.
pub open spec fn open_escrow_call(program_id: Pubkey, lamports: u64) -> CreateAccountView {
    CreateAccountView {
        from: MAKER_INDEX,
        to: ESCROW_INDEX,
        lamports,
        space: Escrow::LEN as u64,
        owner: program_id@,
        seeds: Seq::empty(),
    }
}

/// Builds the call that opens the escrow account.
pub fn create_escrow_account(program_id: &Pubkey, lamports: u64) -> (call: CreateAccount)
    ensures
        call@ == open_escrow_call(*program_id, lamports),
{
    let seeds: Vec<Vec<u8>> = Vec::new();
    let call = CreateAccount {
        from: MAKER_INDEX,
        to: ESCROW_INDEX,
        lamports,
        space: Escrow::LEN as u64,
        owner: *program_id,
        seeds,
    };
    assert(call@.seeds =~= Seq::<Seq<u8>>::empty());
    call
}

/// The first step of the make instruction, with its result dropped or passed on.
pub(crate) fn start_make(program_id: &Pubkey, accounts: &[AccountInfo], result_dropped: bool) -> (s:
    Step)
    ensures
        s@ == make_first_step(*program_id, accounts@.len(), result_dropped),
{
    if accounts.len() != MAKE_ACCOUNTS {
        return Step::Return(
            if result_dropped {
                Ok(())
            } else {
                Err(ProgramError::NotEnoughAccountKeys)
            },
        );
    }
    Step::MinimumBalance {
        space: Escrow::LEN,
        next: AwaitMinimumBalance { program_id: *program_id, flow: Flow::Make { result_dropped } },
    }
}

/// Handles the escrow program's make instruction.
///
/// It takes exactly [`MAKE_ACCOUNTS`] accounts, and refuses any other number with
/// `NotEnoughAccountKeys`. It then creates the escrow account: [`Escrow::LEN`] bytes owned by
/// the program, funded by the maker with the rent-exempt minimum balance. Its result is that of
/// the rent lookup if that fails, else that of the create-account call.
pub fn process_make_instruction(program_id: &Pubkey, accounts: &[AccountInfo], data: &[u8]) -> (s:
    Step)
    ensures
        s@ == make_first_step(*program_id, accounts@.len(), false),
{
    start_make(program_id, accounts, false)
}

/// The make instruction fails with `NotEnoughAccountKeys` unless it has exactly nine accounts;
/// with nine, it fails as the rent lookup fails, and otherwise ends as the create-account call
/// ends.
pub proof fn lemma_make_result(
    program_id: Pubkey,
    n_accounts: nat,
    minimum_balance: Result<u64, ProgramError>,
    invoked: Result<(), ProgramError>,
)
    ensures
        final_step(make_first_step(program_id, n_accounts, false), minimum_balance, invoked)
            == StepView::Return(
            if n_accounts != MAKE_ACCOUNTS {
                Err(ProgramError::NotEnoughAccountKeys)
            } else {
                match minimum_balance {
                    Ok(_) => invoked,
                    Err(e) => Err(e),
                }
            },
        ),
{
}

/// The account that make creates is owned by the program and has room for exactly one escrow,
/// so [`Escrow::from_account_info`] and [`Escrow::store`] accept it.
pub proof fn lemma_created_account_holds_escrow(program_id: Pubkey, lamports: u64, e: EscrowView)
    requires
        e.wf(),
    ensures
        open_escrow_call(program_id, lamports).owner == program_id@,
        open_escrow_call(program_id, lamports).space == escrow_bytes(e).len(),
{
    crate::state::lemma_escrow_read_after_write(e);
}

/// Make with nine accounts first asks for the minimum balance of 105 bytes. After a lookup
/// answering `lamports` it makes one unsigned create-account call from account 0 to account 1
/// with exactly those lamports, 105 bytes and the given program id as owner, and then leaves with
/// the call's result; after a failed lookup it leaves with the lookup's error. With any other
/// number of accounts it leaves at once with `NotEnoughAccountKeys`.
pub proof fn lemma_make_steps(
    program_id: Pubkey,
    n_accounts: nat,
    lamports: u64,
    e: ProgramError,
    invoked: Result<(), ProgramError>,
)
    ensures
        n_accounts != 9 ==> make_first_step(program_id, n_accounts, false) == StepView::Return(
            Err(ProgramError::NotEnoughAccountKeys),
        ),
        n_accounts == 9 ==> ({
            let s = make_first_step(program_id, n_accounts, false);
            let next = s->MinimumBalance_next;
            let after = next.resumed(Ok(lamports));
            let call = after->Invoke_call;
            &&& s is MinimumBalance
            &&& s->MinimumBalance_space == 105
            &&& next.program_id == program_id
            &&& after is Invoke
            &&& call.from == 0
            &&& call.to == 1
            &&& call.lamports == lamports
            &&& call.space == 105
            &&& call.owner == program_id@
            &&& call.seeds.len() == 0
            &&& after->Invoke_next.resumed(invoked) == StepView::Return(invoked)
            &&& next.resumed(Err(e)) == StepView::Return(Err(e))
        }),
{
}

} // verus!
