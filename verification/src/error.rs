use vstd::prelude::*;

verus! {

/// Reasons a program may fail, with the same variants as the runtime's program error.
#[derive(Clone, Copy, Debug, PartialEq, Eq, Structural)]
pub enum ProgramError {
    /// A program-specific error code.
    Custom(u32),
    /// The arguments provided to a program instruction were invalid.
    InvalidArgument,
    /// An instruction's data contents was invalid.
    InvalidInstructionData,
    /// An account's data contents was invalid.
    InvalidAccountData,
    /// An account's data was too small.
    AccountDataTooSmall,
    /// An account's balance was too small to complete the instruction.
    InsufficientFunds,
    /// The account did not have the expected program id.
    IncorrectProgramId,
    /// A signature was required but not found.
    MissingRequiredSignature,
    /// An initialize instruction was sent to an account that has already been initialized.
    AccountAlreadyInitialized,
    /// An attempt to operate on an account that hasn't been initialized.
    UninitializedAccount,
    /// The instruction expected additional account keys.
    NotEnoughAccountKeys,
    /// Failed to borrow a reference to account data, already borrowed.
    AccountBorrowFailed,
    /// Length of the seed is too long for address generation.
    MaxSeedLengthExceeded,
    /// Provided seeds do not result in a valid address.
    InvalidSeeds,
    /// IO error.
    BorshIoError,
    /// An account does not have enough lamports to be rent-exempt.
    AccountNotRentExempt,
    /// Unsupported sysvar.
    UnsupportedSysvar,
    /// Provided owner is not allowed.
    IllegalOwner,
    /// Accounts data allocations exceeded the maximum allowed per transaction.
    MaxAccountsDataAllocationsExceeded,
    /// Account data reallocation was invalid.
    InvalidRealloc,
    /// Instruction trace length exceeded the maximum allowed per transaction.
    MaxInstructionTraceLengthExceeded,
    /// Builtin programs must consume compute units.
    BuiltinProgramsMustConsumeComputeUnits,
    /// Invalid account owner.
    InvalidAccountOwner,
    /// Program arithmetic overflowed.
    ArithmeticOverflow,
    /// Account is immutable.
    Immutable,
    /// Incorrect authority provided.
    IncorrectAuthority,
}

} // verus!
