use vstd::prelude::*;

verus! {

/// Number of bytes in a public key.
pub const PUBKEY_BYTES: usize = 32;

/// An account address (or program id): 32 raw bytes.
pub type Pubkey = [u8; 32];

/// What an instruction handler sees of one account passed to it.
pub struct AccountInfo {
    /// The account's address.
    pub key: Pubkey,
    /// The program that owns the account.
    pub owner: Pubkey,
    /// The account's balance.
    pub lamports: u64,
    /// The account's data.
    pub data: Vec<u8>,
    /// Whether the transaction was signed by this account's key.
    pub is_signer: bool,
    /// Whether the account may be written by the instruction.
    pub is_writable: bool,
    /// Whether the account holds a loaded program.
    pub executable: bool,
}

} // verus!
