use vstd::prelude::*;

use crate::account::Pubkey;
use crate::error::ProgramError;
use crate::fundraiser::{create_fundraiser_account, fundraiser_call, initialized_account_data, initialized_data, FUNDRAISER_ACCOUNT};
use crate::instructions::{create_escrow_account, open_escrow_call};

verus! {

/// Which instruction a pending step belongs to.
#[derive(Clone, Copy)]
pub enum Flow {
    /// The escrow program's make instruction; its own result is dropped when it runs from the
    /// entrypoint.
    Make { result_dropped: bool },
    /// The fundraiser's initialize instruction, for the account with key `key`.
    Fundraiser { key: Pubkey },
}

/// A call of the system program's create-account instruction.
pub struct CreateAccount {
    /// Position, among the instruction's accounts, of the account that funds the new one.
    pub from: usize,
    /// Position, among the instruction's accounts, of the account to create.
    pub to: usize,
    /// Balance to move into the new account.
    pub lamports: u64,
    /// Size of the new account's data.
    pub space: u64,
    /// Program that will own the new account.
    pub owner: Pubkey,
    /// Seeds with which the program signs for the new account's address; empty for an unsigned
    /// call.
    pub seeds: Vec<Vec<u8>>,
}

/// The mathematical value of a [`CreateAccount`].
pub struct CreateAccountView {
    pub from: usize,
    pub to: usize,
    pub lamports: u64,
    pub space: u64,
    pub owner: Seq<u8>,
    pub seeds: Seq<Seq<u8>>,
}

impl View for CreateAccount {
    type V = CreateAccountView;

    open spec fn view(&self) -> CreateAccountView {
        CreateAccountView {
            from: self.from,
            to: self.to,
            lamports: self.lamports,
            space: self.space,
            owner: self.owner@,
            seeds: self.seeds@.map_values(|s: Vec<u8>| s@),
        }
    }
}

/// An instruction is waiting for the rent-exempt minimum balance of the account it creates.
pub struct AwaitMinimumBalance {
    /// The program's id, which will own the new account.
    pub program_id: Pubkey,
    /// The instruction waiting.
    pub flow: Flow,
}

/// An instruction is waiting for the outcome of its create-account call.
pub struct AwaitCreateAccount {
    /// The instruction waiting.
    pub flow: Flow,
}

/// What the program needs done next, by the runtime, to go on handling an instruction.
pub enum Step {
    /// Read the rent sysvar, compute the minimum balance of an account with `space` bytes of data,
    /// and hand the outcome to `next`.
    MinimumBalance { space: usize, next: AwaitMinimumBalance },
    /// Perform the call and hand its outcome to `next`.
    Invoke { call: CreateAccount, next: AwaitCreateAccount },
    /// Copy `data` over the whole data of the account at position `account`, then leave the
    /// entrypoint successfully.
    Write { account: usize, data: Vec<u8> },
    /// Leave the entrypoint with this result.
    Return(Result<(), ProgramError>),
}

/// The mathematical value of a [`Step`].
pub enum StepView {
    MinimumBalance { space: usize, next: AwaitMinimumBalance },
    Invoke { call: CreateAccountView, next: AwaitCreateAccount },
    Write { account: usize, data: Seq<u8> },
    Return(Result<(), ProgramError>),
}

impl View for Step {
    type V = StepView;

    open spec fn view(&self) -> StepView {
        match self {
            Step::MinimumBalance { space, next } => StepView::MinimumBalance {
                space: *space,
                next: *next,
            },
            Step::Invoke { call, next } => StepView::Invoke { call: call@, next: *next },
            Step::Write { account, data } => StepView::Write { account: *account, data: data@ },
            Step::Return(r) => StepView::Return(*r),
        }
    }
}

/// The result an instruction of `flow` leaves with, given its own result `r`.
pub open spec fn finished(flow: Flow, r: Result<(), ProgramError>) -> Result<(), ProgramError> {
    match flow {
        Flow::Make { result_dropped } => if result_dropped {
            Ok(())
        } else {
            r
        },
        Flow::Fundraiser { key } => r,
    }
}

fn finish(flow: Flow, r: Result<(), ProgramError>) -> (out: Result<(), ProgramError>)
    ensures
        out == finished(flow, r),
{
    match flow {
        Flow::Make { result_dropped } => if result_dropped {
            Ok(())
        } else {
            r
        },
        Flow::Fundraiser { .. } => r,
    }
}

impl AwaitMinimumBalance {
    /// The step that follows once the rent lookup has answered `minimum_balance`: on success the
    /// instruction's create-account call, else leaving with the lookup's error.
    pub open spec fn resumed(self, minimum_balance: Result<u64, ProgramError>) -> StepView {
        match minimum_balance {
            Ok(lamports) => StepView::Invoke {
                call: match self.flow {
                    Flow::Make { result_dropped } => open_escrow_call(self.program_id, lamports),
                    Flow::Fundraiser { key } => fundraiser_call(self.program_id, key, lamports),
                },
                next: AwaitCreateAccount { flow: self.flow },
            },
            Err(e) => StepView::Return(finished(self.flow, Err(e))),
        }
    }

    /// Goes on once the rent-exempt minimum balance is known, or its lookup has failed.
    pub fn resume(self, minimum_balance: Result<u64, ProgramError>) -> (s: Step)
        ensures
            s@ == self.resumed(minimum_balance),
    {
        match minimum_balance {
            Ok(lamports) => {
                let call = match self.flow {
                    Flow::Make { .. } => create_escrow_account(&self.program_id, lamports),
                    Flow::Fundraiser { key } => create_fundraiser_account(&self.program_id, &key, lamports),
                };
                Step::Invoke { call, next: AwaitCreateAccount { flow: self.flow } }
            },
            Err(e) => Step::Return(finish(self.flow, Err(e))),
        }
    }
}

impl AwaitCreateAccount {
    /// The step that follows once the create-account call has returned `invoked`.
    ///
    /// Make then leaves with its result. The fundraiser leaves with the call's error, or, after a
    /// successful call, writes its account's initial data.
    pub open spec fn resumed(self, invoked: Result<(), ProgramError>) -> StepView {
        match self.flow {
            Flow::Make { result_dropped } => StepView::Return(finished(self.flow, invoked)),
            Flow::Fundraiser { key } => match invoked {
                Ok(()) => StepView::Write {
                    account: FUNDRAISER_ACCOUNT,
                    data: initialized_account_data(),
                },
                Err(e) => StepView::Return(Err(e)),
            },
        }
    }

    /// Goes on once the create-account call has returned.
    pub fn resume(self, invoked: Result<(), ProgramError>) -> (s: Step)
        ensures
            s@ == self.resumed(invoked),
    {
        match self.flow {
            Flow::Make { .. } => Step::Return(finish(self.flow, invoked)),
            Flow::Fundraiser { .. } => match invoked {
                Ok(()) => Step::Write { account: FUNDRAISER_ACCOUNT, data: initialized_data() },
                Err(e) => Step::Return(Err(e)),
            },
        }
    }
}

/// The step that ends the run from `s`, when the runtime answers the rent lookup with
/// `minimum_balance` and the create-account call with `invoked`.
pub open spec fn final_step(
    s: StepView,
    minimum_balance: Result<u64, ProgramError>,
    invoked: Result<(), ProgramError>,
) -> StepView {
    match s {
        StepView::Invoke { call, next } => next.resumed(invoked),
        StepView::MinimumBalance { space, next } => match next.resumed(minimum_balance) {
            StepView::Invoke { call, next } => next.resumed(invoked),
            other => other,
        },
        other => other,
    }
}

/// The result with which the entrypoint leaves after the final step `s`.
pub open spec fn entry_result(s: StepView) -> Result<(), ProgramError> {
    match s {
        StepView::Return(r) => r,
        _ => Ok(()),
    }
}

} // verus!
