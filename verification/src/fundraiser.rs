use vstd::prelude::*;

use crate::account::{AccountInfo, Pubkey};
use crate::codec::{append_bytes, split_first};
use crate::steps::{final_step, AwaitMinimumBalance, CreateAccount, CreateAccountView, Flow, Step, StepView};
use crate::error::ProgramError;

verus! {

/// The arguments of the fundraiser's initialize instruction, laid out as 16 raw bytes: the seeds,
/// then the size.
#[derive(Clone, Copy, Debug, PartialEq, Eq)]
pub struct IxHandler {
    seeds: [u8; 8],
    size: [u8; 8],
}

/// The mathematical value of an [`IxHandler`].
pub struct IxHandlerView {
    pub seeds: Seq<u8>,
    pub size: Seq<u8>,
}

impl View for IxHandler {
    type V = IxHandlerView;

    closed spec fn view(&self) -> IxHandlerView {
        IxHandlerView { seeds: self.seeds@, size: self.size@ }
    }
}

/// The 16 bytes that lay out `h`.
pub open spec fn ix_handler_bytes(h: IxHandlerView) -> Seq<u8> {
    h.seeds + h.size
}

/// The value that the 16 bytes `b` lay out.
pub open spec fn ix_handler_from_bytes(b: Seq<u8>) -> IxHandlerView {
    IxHandlerView { seeds: b.subrange(0, 8), size: b.subrange(8, 16) }
}

impl IxHandler {
    /// Size of the instruction arguments.
    pub const LEN: usize = 16;

    /// Lays out a value over exactly [`IxHandler::LEN`] bytes; `None` for any other length.
    pub fn from_bytes(bytes: &[u8]) -> (r: Option<IxHandler>)
        ensures
            bytes@.len() != IxHandler::LEN ==> r is None,
            bytes@.len() == IxHandler::LEN ==> (r matches Some(h) && h@ == ix_handler_from_bytes(
                bytes@,
            )),
    {
        if bytes.len() != Self::LEN {
            return None;
        }
        let mut seeds: [u8; 8] = [0u8; 8];
        let mut size: [u8; 8] = [0u8; 8];
        let mut i: usize = 0;
        while i < 8
            invariant
                i <= 8,
                bytes@.len() == 16,
                seeds@.len() == 8,
                size@.len() == 8,
                forall|j: int| 0 <= j < i ==> seeds@[j] == bytes@[j],
                forall|j: int| 0 <= j < i ==> size@[j] == bytes@[8 + j],
            decreases 8 - i,
        {
            seeds[i] = bytes[i];
            size[i] = bytes[8 + i];
            i = i + 1;
        }
        let h = IxHandler { seeds, size };
        assert(h@.seeds =~= bytes@.subrange(0, 8));
        assert(h@.size =~= bytes@.subrange(8, 16));
        Some(h)
    }

    /// The [`IxHandler::LEN`] bytes that lay out this value.
    pub fn to_bytes(&self) -> (bytes: Vec<u8>)
        ensures
            bytes@ == ix_handler_bytes(self@),
    {
        let mut out: Vec<u8> = Vec::new();
        append_bytes(&mut out, self.seeds.as_slice());
        append_bytes(&mut out, self.size.as_slice());
        out
    }
}

/// The fundraiser program's id.
pub const ID: Pubkey = [
    16, 139, 42, 199, 40, 139, 153, 190, 83, 22, 140, 204, 245, 110, 103, 31, 103, 21, 25, 217, 18,
    138, 254, 148, 69, 113, 161, 39, 205, 254, 114, 110,
];

/// Position of the one account the initialize instruction takes.
pub const FUNDRAISER_ACCOUNT: usize = 0;

/// Size of the account initialize creates: room for the bytes it then writes there.
pub const FUNDRAISER_LEN: usize = 4;

/// The bytes the initialize instruction writes into its account once the account is created.
pub open spec fn initialized_account_data() -> Seq<u8> {
    seq![0u8, 3u8, 5u8, 5u8]
}

/// The first seed of the fundraiser account's address: the ASCII bytes of `fundraiser`.
pub open spec fn fundraiser_seed() -> Seq<u8> {
    seq![102u8, 117u8, 110u8, 100u8, 114u8, 97u8, 105u8, 115u8, 101u8, 114u8]
}

/// The bump seed with which the program signs for the fundraiser account.
pub const FUNDRAISER_BUMP: u8 = 0;

/// Whether the fundraiser program refuses an instruction with `n_accounts` accounts and the data
/// `data` before doing anything: the data must select initialize (first byte `0`), come with
/// exactly one account and carry at least [`IxHandler::LEN`] bytes of arguments.
pub open spec fn fundraiser_refuses(n_accounts: nat, data: Seq<u8>) -> bool {
    data.len() == 0 || data[0] != 0 || n_accounts != 1 || data.len() < 1 + IxHandler::LEN
}

/// The signed create-account call of initialize, with `lamports`: [`FUNDRAISER_LEN`] bytes owned
/// by `program_id`, signed with the seeds `fundraiser`, the account's key `key` and the bump.
///
/// The instruction's single account stands for both the funding account and the new one.
pub open spec fn fundraiser_call(program_id: Pubkey, key: Pubkey, lamports: u64) -> CreateAccountView {
    CreateAccountView {
        from: FUNDRAISER_ACCOUNT,
        to: FUNDRAISER_ACCOUNT,
        lamports,
        space: FUNDRAISER_LEN as u64,
        owner: program_id@,
        seeds: seq![fundraiser_seed(), key@, seq![FUNDRAISER_BUMP]],
    }
}

/// The first step of the fundraiser program for the accounts `accounts` and the data `data`.
pub open spec fn fundraiser_first_step(accounts: Seq<AccountInfo>, data: Seq<u8>) -> StepView {
    if fundraiser_refuses(accounts.len(), data) {
        StepView::Return(Err(ProgramError::InvalidInstructionData))
    } else {
        StepView::MinimumBalance {
            space: FUNDRAISER_LEN,
            next: AwaitMinimumBalance {
                program_id: ID,
                flow: Flow::Fundraiser { key: accounts[FUNDRAISER_ACCOUNT as int].key },
            },
        }
    }
}

/// Builds the signed call that creates the fundraiser account.
pub fn create_fundraiser_account(program_id: &Pubkey, key: &Pubkey, lamports: u64) -> (call:
    CreateAccount)
    ensures
        call@ == fundraiser_call(*program_id, *key, lamports),
{
    let prefix: Vec<u8> = vec![102u8, 117u8, 110u8, 100u8, 114u8, 97u8, 105u8, 115u8, 101u8, 114u8];
    let mut key_seed: Vec<u8> = Vec::new();
    append_bytes(&mut key_seed, key.as_slice());
    let bump: Vec<u8> = vec![FUNDRAISER_BUMP];
    let mut seeds: Vec<Vec<u8>> = Vec::new();
    seeds.push(prefix);
    seeds.push(key_seed);
    seeds.push(bump);
    let call = CreateAccount {
        from: FUNDRAISER_ACCOUNT,
        to: FUNDRAISER_ACCOUNT,
        lamports,
        space: FUNDRAISER_LEN as u64,
        owner: *program_id,
        seeds,
    };
    assert(call@.seeds[0] =~= fundraiser_seed());
    assert(call@.seeds[2] =~= seq![FUNDRAISER_BUMP]);
    assert(call@.seeds =~= seq![fundraiser_seed(), key@, seq![FUNDRAISER_BUMP]]);
    call
}

/// The bytes initialize writes into its account.
pub fn initialized_data() -> (data: Vec<u8>)
    ensures
        data@ == initialized_account_data(),
{
    let data: Vec<u8> = vec![0u8, 3u8, 5u8, 5u8];
    assert(data@ =~= initialized_account_data());
    data
}

/// Handles one instruction of the fundraiser program.
///
/// The first byte of `instruction_data` selects the instruction; only `0` (initialize) exists.
/// Initialize takes exactly one account and at least [`IxHandler::LEN`] bytes of arguments; any
/// other instruction data, or another number of accounts, is refused as invalid instruction data.
/// Initialize then looks up the rent-exempt minimum balance of [`FUNDRAISER_LEN`] bytes, creates
/// the account owned by [`ID`] with a call signed by the seeds `fundraiser`, the account's key
/// and the bump, and only after both succeeded writes `0, 3, 5, 5` into the account. An error of
/// the lookup or of the call is passed on, and nothing is written.
pub fn process_instruction(program_id: &Pubkey, accounts: &[AccountInfo], instruction_data: &[u8]) -> (s:
    Step)
    ensures
        s@ == fundraiser_first_step(accounts@, instruction_data@),
{
    let (discriminator, data) = match split_first(instruction_data) {
        Ok(parts) => parts,
        Err(e) => return Step::Return(Err(e)),
    };
    if discriminator != 0 {
        return Step::Return(Err(ProgramError::InvalidInstructionData));
    }
    if accounts.len() != 1 {
        return Step::Return(Err(ProgramError::InvalidInstructionData));
    }
    if data.len() < IxHandler::LEN {
        return Step::Return(Err(ProgramError::InvalidInstructionData));
    }
    let args = vstd::slice::slice_subrange(data.as_slice(), 0, IxHandler::LEN);
    let _handler = IxHandler::from_bytes(args);
    Step::MinimumBalance {
        space: FUNDRAISER_LEN,
        next: AwaitMinimumBalance {
            program_id: ID,
            flow: Flow::Fundraiser { key: accounts[FUNDRAISER_ACCOUNT].key },
        },
    }
}

/// Initialize ends with invalid instruction data when refused; otherwise with the rent lookup's
/// error, else with the call's error, and only when both succeed by writing its data. A failed
/// rent lookup issues no call.
pub proof fn lemma_fundraiser_result(
    accounts: Seq<AccountInfo>,
    data: Seq<u8>,
    minimum_balance: Result<u64, ProgramError>,
    invoked: Result<(), ProgramError>,
)
    ensures
        final_step(fundraiser_first_step(accounts, data), minimum_balance, invoked) == (if fundraiser_refuses(
            accounts.len(),
            data,
        ) {
            StepView::Return(Err(ProgramError::InvalidInstructionData))
        } else {
            match minimum_balance {
                Err(e) => StepView::Return(Err(e)),
                Ok(_) => match invoked {
                    Err(e) => StepView::Return(Err(e)),
                    Ok(()) => StepView::Write {
                        account: FUNDRAISER_ACCOUNT,
                        data: initialized_account_data(),
                    },
                },
            }
        }),
        fundraiser_first_step(accounts, data) matches StepView::MinimumBalance { next, .. } ==> (
        minimum_balance matches Err(e) ==> next.resumed(minimum_balance) == StepView::Return(
            Err(e),
        )),
{
}

/// The account initialize creates has exactly the size of the data it then writes there.
pub proof fn lemma_fundraiser_account_fits_data()
    ensures
        FUNDRAISER_LEN == initialized_account_data().len(),
{
}

/// Laying out a value and reading it back gives the same value.
pub proof fn lemma_ix_handler_read_after_write(h: IxHandlerView)
    requires
        h.seeds.len() == 8,
        h.size.len() == 8,
    ensures
        ix_handler_bytes(h).len() == IxHandler::LEN,
        ix_handler_from_bytes(ix_handler_bytes(h)) == h,
{
    assert(ix_handler_bytes(h).subrange(0, 8) =~= h.seeds);
    assert(ix_handler_bytes(h).subrange(8, 16) =~= h.size);
}

/// Reading a value from [`IxHandler::LEN`] bytes and laying it out again gives the same bytes.
pub proof fn lemma_ix_handler_write_after_read(b: Seq<u8>)
    requires
        b.len() == IxHandler::LEN,
    ensures
        ix_handler_bytes(ix_handler_from_bytes(b)) == b,
{
    assert(ix_handler_bytes(ix_handler_from_bytes(b)) =~= b);
}

/// Initialize with one account, first byte `0` and at least 16 argument bytes (whatever follows
/// them) first asks for the minimum balance of 4 bytes. After a lookup answering `lamports` it
/// makes one create-account call from and to account 0 with exactly those lamports, 4 bytes and
/// the fundraiser's id as owner, signed with the seeds `fundraiser`, the account's key and `0`.
/// Only when that call succeeds does it write `0, 3, 5, 5` over account 0's data; a failed call
/// or a failed lookup leaves with that error. Any other instruction is refused with
/// `InvalidInstructionData`.
pub proof fn lemma_fundraiser_steps(
    accounts: Seq<AccountInfo>,
    data: Seq<u8>,
    lamports: u64,
    e: ProgramError,
)
    ensures
        !(accounts.len() == 1 && data.len() >= 17 && data[0] == 0) ==> fundraiser_first_step(
            accounts,
            data,
        ) == StepView::Return(Err(ProgramError::InvalidInstructionData)),
        accounts.len() == 1 && data.len() >= 17 && data[0] == 0 ==> ({
            let s = fundraiser_first_step(accounts, data);
            let next = s->MinimumBalance_next;
            let after = next.resumed(Ok(lamports));
            let call = after->Invoke_call;
            &&& s is MinimumBalance
            &&& s->MinimumBalance_space == 4
            &&& next.program_id == ID
            &&& after is Invoke
            &&& call.from == 0
            &&& call.to == 0
            &&& call.lamports == lamports
            &&& call.space == 4
            &&& call.owner == ID@
            &&& call.seeds == seq![
                seq![102u8, 117u8, 110u8, 100u8, 114u8, 97u8, 105u8, 115u8, 101u8, 114u8],
                accounts[0].key@,
                seq![0u8],
            ]
            &&& after->Invoke_next.resumed(Ok(())) == StepView::Write {
                account: 0,
                data: seq![0u8, 3u8, 5u8, 5u8],
            }
            &&& after->Invoke_next.resumed(Err(e)) == StepView::Return(Err(e))
            &&& next.resumed(Err(e)) == StepView::Return(Err(e))
        }),
{
}

/// The fundraiser's first step depends only on its accounts and the first 17 bytes of the
/// instruction data: the selector and the arguments.
pub proof fn lemma_fundraiser_reads_only_arguments(
    accounts: Seq<AccountInfo>,
    data1: Seq<u8>,
    data2: Seq<u8>,
)
    requires
        data1.len() >= 17,
        data2.len() >= 17,
        data1.take(17) == data2.take(17),
    ensures
        fundraiser_first_step(accounts, data1) == fundraiser_first_step(accounts, data2),
{
    assert(data1[0] == data1.take(17)[0]);
    assert(data2[0] == data2.take(17)[0]);
}

/// The arguments lay out as the 8 seed bytes followed by the 8 size bytes.
pub proof fn lemma_ix_handler_layout(h: IxHandlerView, b: Seq<u8>)
    requires
        b.len() == 16,
    ensures
        IxHandler::LEN == 16,
        ix_handler_from_bytes(b).seeds == b.subrange(0, 8),
        ix_handler_from_bytes(b).size == b.subrange(8, 16),
        ix_handler_bytes(h).take(h.seeds.len() as int) == h.seeds,
        ix_handler_bytes(h).skip(h.seeds.len() as int) == h.size,
{
    assert(ix_handler_bytes(h).take(h.seeds.len() as int) =~= h.seeds);
    assert(ix_handler_bytes(h).skip(h.seeds.len() as int) =~= h.size);
}

} // verus!
