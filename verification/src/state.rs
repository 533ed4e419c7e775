use vstd::prelude::*;
use vstd::bytes::{spec_u64_from_le_bytes, spec_u64_to_le_bytes, lemma_auto_spec_u64_to_from_le_bytes};

use crate::account::{AccountInfo, Pubkey};
use crate::codec::{append_bytes, append_u64_le, read_pubkey, read_u64_le, write_prefix};

verus! {

/// The state of one escrow offer, stored in the data of an account owned by the escrow program.
///
/// The account data holds the fields in declaration order: the three keys (32 bytes each), the
/// amount of mint B wanted (8 bytes, little-endian) and the bump seed (1 byte).
#[derive(Clone, Copy, Debug, PartialEq, Eq)]
pub struct Escrow {
    /// Mint of the token the maker deposits.
    pub mint_a: Pubkey,
    /// Mint of the token the maker wants in return.
    pub mint_b: Pubkey,
    /// The maker of the offer.
    pub maker: Pubkey,
    /// How much of mint B the maker wants.
    pub receive_amount_mint_b: u64,
    /// Bump seed of the escrow account's address.
    pub bump: u8,
}

/// The mathematical value of an [`Escrow`].
pub struct EscrowView {
    pub mint_a: Seq<u8>,
    pub mint_b: Seq<u8>,
    pub maker: Seq<u8>,
    pub receive_amount_mint_b: u64,
    pub bump: u8,
}

impl View for Escrow {
    type V = EscrowView;

    open spec fn view(&self) -> EscrowView {
        EscrowView {
            mint_a: self.mint_a@,
            mint_b: self.mint_b@,
            maker: self.maker@,
            receive_amount_mint_b: self.receive_amount_mint_b,
            bump: self.bump,
        }
    }
}

impl EscrowView {
    /// Every key is 32 bytes long, as the view of an [`Escrow`] always is.
    pub open spec fn wf(self) -> bool {
        &&& self.mint_a.len() == 32
        &&& self.mint_b.len() == 32
        &&& self.maker.len() == 32
    }
}

/// The account data that holds `e`.
pub open spec fn escrow_bytes(e: EscrowView) -> Seq<u8> {
    e.mint_a + e.mint_b + e.maker + spec_u64_to_le_bytes(e.receive_amount_mint_b) + seq![e.bump]
}

/// The escrow that the account data `data` holds.
pub open spec fn escrow_from_bytes(data: Seq<u8>) -> EscrowView {
    EscrowView {
        mint_a: data.subrange(0, 32),
        mint_b: data.subrange(32, 64),
        maker: data.subrange(64, 96),
        receive_amount_mint_b: spec_u64_from_le_bytes(data.subrange(96, 104)),
        bump: data[104],
    }
}

impl Escrow {
    /// Size of the account data that holds an escrow.
    pub const LEN: usize = 32 + 32 + 32 + 8 + 1;

    /// Reads the escrow held by an account of the escrow program, to be changed and written
    /// back with [`Escrow::store`].
    ///
    /// The account's data must be exactly [`Escrow::LEN`] bytes long and the account must be
    /// owned by `program_id`, the escrow program's id as its entrypoint receives it.
    pub fn from_account_info(account_info: &AccountInfo, program_id: &Pubkey) -> (e: Escrow)
        requires
            account_info.data@.len() == Escrow::LEN,
            account_info.owner@ == program_id@,
        ensures
            e@ == escrow_from_bytes(account_info.data@),
    {
        Self::decode(account_info.data.as_slice())
    }

    /// Reads the escrow held by an account of the escrow program.
    ///
    /// The account's data must be exactly [`Escrow::LEN`] bytes long and the account must be
    /// owned by `program_id`.
    pub fn from_account_info_readable(account_info: &AccountInfo, program_id: &Pubkey) -> (e:
        Escrow)
        requires
            account_info.data@.len() == Escrow::LEN,
            account_info.owner@ == program_id@,
        ensures
            e@ == escrow_from_bytes(account_info.data@),
    {
        Self::decode(account_info.data.as_slice())
    }

    /// Writes this escrow into the data of an account of [`Escrow::LEN`] bytes.
    pub fn store(&self, account_info: &mut AccountInfo)
        requires
            old(account_info).data@.len() == Escrow::LEN,
        ensures
            final(account_info).data@ == escrow_bytes(self@),
            final(account_info).key == old(account_info).key,
            final(account_info).owner == old(account_info).owner,
            final(account_info).lamports == old(account_info).lamports,
            final(account_info).is_signer == old(account_info).is_signer,
            final(account_info).is_writable == old(account_info).is_writable,
            final(account_info).executable == old(account_info).executable,
    {
        let bytes = self.to_bytes();
        let _ = write_prefix(account_info.data.as_mut_slice(), bytes.as_slice());
        assert(account_info.data@ =~= escrow_bytes(self@));
    }

    /// The account data that holds this escrow.
    pub fn to_bytes(&self) -> (bytes: Vec<u8>)
        ensures
            bytes@ == escrow_bytes(self@),
            bytes@.len() == Escrow::LEN,
    {
        proof {
            lemma_auto_spec_u64_to_from_le_bytes();
        }
        let mut out: Vec<u8> = Vec::new();
        append_bytes(&mut out, self.mint_a.as_slice());
        append_bytes(&mut out, self.mint_b.as_slice());
        append_bytes(&mut out, self.maker.as_slice());
        append_u64_le(&mut out, self.receive_amount_mint_b);
        out.push(self.bump);
        assert(out@ =~= escrow_bytes(self@));
        out
    }

    fn decode(data: &[u8]) -> (e: Escrow)
        requires
            data@.len() == Escrow::LEN,
        ensures
            e@ == escrow_from_bytes(data@),
    {
        let mint_a = read_pubkey(data, 0);
        let mint_b = read_pubkey(data, 32);
        let maker = read_pubkey(data, 64);
        let receive_amount_mint_b = read_u64_le(data, 96);
        let bump = data[104];
        Escrow { mint_a, mint_b, maker, receive_amount_mint_b, bump }
    }
}

impl Default for Escrow {
    fn default() -> (e: Escrow)
        ensures
            e@ == (EscrowView {
                mint_a: Seq::new(32, |i: int| 0u8),
                mint_b: Seq::new(32, |i: int| 0u8),
                maker: Seq::new(32, |i: int| 0u8),
                receive_amount_mint_b: 0,
                bump: 0,
            }),
    {
        let e = Escrow {
            mint_a: [0u8; 32],
            mint_b: [0u8; 32],
            maker: [0u8; 32],
            receive_amount_mint_b: 0,
            bump: 0,
        };
        assert(e.mint_a@ =~= Seq::new(32, |i: int| 0u8));
        assert(e.mint_b@ =~= Seq::new(32, |i: int| 0u8));
        assert(e.maker@ =~= Seq::new(32, |i: int| 0u8));
        e
    }
}

/// Reading an escrow back from the bytes that hold it gives the same escrow.
pub proof fn lemma_escrow_read_after_write(e: EscrowView)
    requires
        e.wf(),
    ensures
        escrow_bytes(e).len() == Escrow::LEN,
        escrow_from_bytes(escrow_bytes(e)) == e,
{
    lemma_auto_spec_u64_to_from_le_bytes();
    let b = escrow_bytes(e);
    assert(b.subrange(0, 32) =~= e.mint_a);
    assert(b.subrange(32, 64) =~= e.mint_b);
    assert(b.subrange(64, 96) =~= e.maker);
    assert(b.subrange(96, 104) =~= spec_u64_to_le_bytes(e.receive_amount_mint_b));
}

/// Writing back the escrow read from account data of [`Escrow::LEN`] bytes leaves the data as it was.
pub proof fn lemma_escrow_write_after_read(data: Seq<u8>)
    requires
        data.len() == Escrow::LEN,
    ensures
        escrow_from_bytes(data).wf(),
        escrow_bytes(escrow_from_bytes(data)) == data,
{
    lemma_auto_spec_u64_to_from_le_bytes();
    let e = escrow_from_bytes(data);
    assert(spec_u64_to_le_bytes(e.receive_amount_mint_b) == data.subrange(96, 104));
    assert(escrow_bytes(e) =~= data);
}

/// An escrow's account data is 105 bytes holding each field raw at its place: the mint A, mint B
/// and maker keys at offsets 0, 32 and 64, the wanted amount little-endian at 96 and the bump at
/// 104; reading account data takes each field from that place.
pub proof fn lemma_escrow_layout(e: EscrowView, data: Seq<u8>)
    requires
        e.wf(),
        data.len() == 105,
    ensures
        Escrow::LEN == 105,
        escrow_bytes(e).len() == 105,
        escrow_bytes(e).subrange(0, 32) == e.mint_a,
        escrow_bytes(e).subrange(32, 64) == e.mint_b,
        escrow_bytes(e).subrange(64, 96) == e.maker,
        escrow_bytes(e).subrange(96, 104) == spec_u64_to_le_bytes(e.receive_amount_mint_b),
        escrow_bytes(e)[104] == e.bump,
        escrow_from_bytes(data).mint_a == data.subrange(0, 32),
        escrow_from_bytes(data).mint_b == data.subrange(32, 64),
        escrow_from_bytes(data).maker == data.subrange(64, 96),
        escrow_from_bytes(data).receive_amount_mint_b == spec_u64_from_le_bytes(
            data.subrange(96, 104),
        ),
        escrow_from_bytes(data).bump == data[104],
{
    lemma_auto_spec_u64_to_from_le_bytes();
    let b = escrow_bytes(e);
    assert(b.subrange(0, 32) =~= e.mint_a);
    assert(b.subrange(32, 64) =~= e.mint_b);
    assert(b.subrange(64, 96) =~= e.maker);
    assert(b.subrange(96, 104) =~= spec_u64_to_le_bytes(e.receive_amount_mint_b));
}

} // verus!
