use vstd::prelude::*;
use vstd::bytes::{spec_u64_from_le_bytes, spec_u64_to_le_bytes, lemma_auto_spec_u64_to_from_le_bytes};

use crate::account::Pubkey;
use crate::codec::{append_bytes, append_u64_le, read_pubkey, read_u64_le, write_prefix};

verus! {

/// Why an account could not be read from or written to its data.
#[derive(Clone, Copy, Debug, PartialEq, Eq, Structural)]
pub enum ErrorCode {
    /// The data is shorter than the 8-byte discriminator.
    AccountDiscriminatorNotFound,
    /// The data does not start with this account type's discriminator.
    AccountDiscriminatorMismatch,
    /// The bytes after the discriminator do not hold the whole account.
    AccountDidNotDeserialize,
    /// The data buffer is too small for the account.
    AccountDidNotSerialize,
}

/// An escrow offer with a time lock, as stored by the Anchor escrow program.
///
/// Its account data is the type's 8-byte discriminator followed by the fields in declaration
/// order, integers little-endian and keys as their 32 raw bytes.
#[derive(Clone, Copy, Debug, PartialEq, Eq)]
pub struct Escrow {
    /// Seed that, with the maker's key, derives the escrow's address.
    pub seed: u64,
    /// The maker of the offer.
    pub maker: Pubkey,
    /// Mint of the token the maker deposits.
    pub mint_a: Pubkey,
    /// Mint of the token the maker wants in return.
    pub mint_b: Pubkey,
    /// How much of mint B the maker wants.
    pub receive: u64,
    /// Unix time before which the offer cannot be taken.
    pub lock_period: i64,
    /// Bump seed of the escrow account's address.
    pub bump: u8,
}

/// The mathematical value of an [`Escrow`].
pub struct EscrowView {
    pub seed: u64,
    pub maker: Seq<u8>,
    pub mint_a: Seq<u8>,
    pub mint_b: Seq<u8>,
    pub receive: u64,
    pub lock_period: i64,
    pub bump: u8,
}

impl View for Escrow {
    type V = EscrowView;

    open spec fn view(&self) -> EscrowView {
        EscrowView {
            seed: self.seed,
            maker: self.maker@,
            mint_a: self.mint_a@,
            mint_b: self.mint_b@,
            receive: self.receive,
            lock_period: self.lock_period,
            bump: self.bump,
        }
    }
}

impl EscrowView {
    /// Every key is 32 bytes long, as the view of an [`Escrow`] always is.
    pub open spec fn wf(self) -> bool {
        &&& self.maker.len() == 32
        &&& self.mint_a.len() == 32
        &&& self.mint_b.len() == 32
    }
}

/// The discriminator of the escrow account type: the first 8 bytes of the SHA-256 digest of
/// `account:Escrow`.
pub open spec fn escrow_discriminator() -> Seq<u8> {
    seq![31u8, 213u8, 123u8, 187u8, 186u8, 22u8, 218u8, 155u8]
}

/// The fields of `e`, encoded one after the other.
pub open spec fn escrow_fields_bytes(e: EscrowView) -> Seq<u8> {
    spec_u64_to_le_bytes(e.seed) + e.maker + e.mint_a + e.mint_b + spec_u64_to_le_bytes(e.receive)
        + spec_u64_to_le_bytes(e.lock_period as u64) + seq![e.bump]
}

/// The account data that holds `e`: the discriminator, then the fields.
pub open spec fn escrow_account_bytes(e: EscrowView) -> Seq<u8> {
    escrow_discriminator() + escrow_fields_bytes(e)
}

/// The escrow whose fields are encoded at the start of `b`.
pub open spec fn escrow_from_fields(b: Seq<u8>) -> EscrowView {
    EscrowView {
        seed: spec_u64_from_le_bytes(b.subrange(0, 8)),
        maker: b.subrange(8, 40),
        mint_a: b.subrange(40, 72),
        mint_b: b.subrange(72, 104),
        receive: spec_u64_from_le_bytes(b.subrange(104, 112)),
        lock_period: spec_u64_from_le_bytes(b.subrange(112, 120)) as i64,
        bump: b[120],
    }
}

/// What reading an escrow from the account data `buf` gives.
pub open spec fn escrow_deserialized(buf: Seq<u8>) -> Result<EscrowView, ErrorCode> {
    if buf.len() < 8 {
        Err(ErrorCode::AccountDiscriminatorNotFound)
    } else if buf.take(8) != escrow_discriminator() {
        Err(ErrorCode::AccountDiscriminatorMismatch)
    } else if buf.len() < 8 + Escrow::INIT_SPACE {
        Err(ErrorCode::AccountDidNotDeserialize)
    } else {
        Ok(escrow_from_fields(buf.skip(8)))
    }
}

impl Escrow {
    /// Bytes that the fields take in the account data, after the discriminator.
    pub const INIT_SPACE: usize = 8 + 32 + 32 + 32 + 8 + 8 + 1;

    /// The discriminator that starts the data of every escrow account.
    pub fn discriminator() -> (d: [u8; 8])
        ensures
            d@ == escrow_discriminator(),
    {
        let d: [u8; 8] = [31, 213, 123, 187, 186, 22, 218, 155];
        assert(d@ =~= escrow_discriminator());
        d
    }

    /// Reads an escrow from account data, checking its discriminator first.
    ///
    /// Bytes after the account are ignored.
    pub fn try_deserialize(buf: &[u8]) -> (r: Result<Escrow, ErrorCode>)
        ensures
            match escrow_deserialized(buf@) {
                Ok(v) => r matches Ok(e) && e@ == v,
                Err(c) => r == Err::<Escrow, ErrorCode>(c),
            },
    {
        let len = buf.len();
        if len < 8 {
            return Err(ErrorCode::AccountDiscriminatorNotFound);
        }
        let disc = Self::discriminator();
        let mut i: usize = 0;
        while i < 8
            invariant
                i <= 8,
                len == buf@.len(),
                len >= 8,
                disc@ == escrow_discriminator(),
                forall|j: int| 0 <= j < i ==> buf@[j] == disc@[j],
            decreases 8 - i,
        {
            if buf[i] != disc[i] {
                assert(buf@.take(8)[i as int] != escrow_discriminator()[i as int]);
                return Err(ErrorCode::AccountDiscriminatorMismatch);
            }
            i = i + 1;
        }
        assert(buf@.take(8) =~= escrow_discriminator());
        Self::try_deserialize_unchecked(buf)
    }

    /// Reads an escrow from the bytes after the discriminator, without checking the
    /// discriminator.
    pub fn try_deserialize_unchecked(buf: &[u8]) -> (r: Result<Escrow, ErrorCode>)
        requires
            buf@.len() >= 8,
        ensures
            buf@.len() < 8 + Escrow::INIT_SPACE ==> r == Err::<Escrow, ErrorCode>(
                ErrorCode::AccountDidNotDeserialize,
            ),
            buf@.len() >= 8 + Escrow::INIT_SPACE ==> (r matches Ok(e) && e@ == escrow_from_fields(
                buf@.skip(8),
            )),
    {
        let len = buf.len();
        if len < 8 + Self::INIT_SPACE {
            return Err(ErrorCode::AccountDidNotDeserialize);
        }
        let seed = read_u64_le(buf, 8);
        let maker = read_pubkey(buf, 16);
        let mint_a = read_pubkey(buf, 48);
        let mint_b = read_pubkey(buf, 80);
        let receive = read_u64_le(buf, 112);
        let lock_bits = read_u64_le(buf, 120);
        let lock_period = lock_bits as i64;
        let bump = buf[128];
        let e = Escrow { seed, maker, mint_a, mint_b, receive, lock_period, bump };
        proof {
            let b = buf@.skip(8);
            assert(b.subrange(0, 8) =~= buf@.subrange(8, 16));
            assert(b.subrange(8, 40) =~= buf@.subrange(16, 48));
            assert(b.subrange(40, 72) =~= buf@.subrange(48, 80));
            assert(b.subrange(72, 104) =~= buf@.subrange(80, 112));
            assert(b.subrange(104, 112) =~= buf@.subrange(112, 120));
            assert(b.subrange(112, 120) =~= buf@.subrange(120, 128));
        }
        Ok(e)
    }

    /// The account data that holds this escrow.
    pub fn to_account_bytes(&self) -> (bytes: Vec<u8>)
        ensures
            bytes@ == escrow_account_bytes(self@),
            bytes@.len() == 8 + Escrow::INIT_SPACE,
    {
        proof {
            lemma_auto_spec_u64_to_from_le_bytes();
        }
        let disc = Self::discriminator();
        let mut out: Vec<u8> = Vec::new();
        append_bytes(&mut out, disc.as_slice());
        append_u64_le(&mut out, self.seed);
        append_bytes(&mut out, self.maker.as_slice());
        append_bytes(&mut out, self.mint_a.as_slice());
        append_bytes(&mut out, self.mint_b.as_slice());
        append_u64_le(&mut out, self.receive);
        append_u64_le(&mut out, self.lock_period as u64);
        out.push(self.bump);
        assert(out@ =~= escrow_account_bytes(self@));
        out
    }

    /// Writes this escrow, discriminator first, at the start of the account data `writer`.
    ///
    /// When the buffer is too small the bytes that fit are written and the call fails.
    pub fn try_serialize(&self, writer: &mut [u8]) -> (r: Result<(), ErrorCode>)
        ensures
            final(writer)@.len() == old(writer)@.len(),
            r is Ok <==> old(writer)@.len() >= 8 + Escrow::INIT_SPACE,
            r is Err ==> r == Err::<(), ErrorCode>(ErrorCode::AccountDidNotSerialize),
            r is Ok ==> final(writer)@ == escrow_account_bytes(self@) + old(writer)@.skip(
                8 + Escrow::INIT_SPACE,
            ),
            r is Err ==> final(writer)@ == escrow_account_bytes(self@).take(old(writer)@.len() as int),
    {
        let bytes = self.to_account_bytes();
        if write_prefix(writer, bytes.as_slice()) {
            Ok(())
        } else {
            Err(ErrorCode::AccountDidNotSerialize)
        }
    }
}

/// Reading an escrow back from the account data it was written to gives the same escrow,
/// whatever follows it in the buffer.
pub proof fn lemma_anchor_escrow_read_after_write(e: EscrowView, rest: Seq<u8>)
    requires
        e.wf(),
    ensures
        escrow_account_bytes(e).len() == 8 + Escrow::INIT_SPACE,
        escrow_deserialized(escrow_account_bytes(e) + rest) == Ok::<EscrowView, ErrorCode>(e),
{
    lemma_auto_spec_u64_to_from_le_bytes();
    let buf = escrow_account_bytes(e) + rest;
    let b = buf.skip(8);
    assert(buf.take(8) =~= escrow_discriminator());
    assert(b.subrange(0, 8) =~= spec_u64_to_le_bytes(e.seed));
    assert(b.subrange(8, 40) =~= e.maker);
    assert(b.subrange(40, 72) =~= e.mint_a);
    assert(b.subrange(72, 104) =~= e.mint_b);
    assert(b.subrange(104, 112) =~= spec_u64_to_le_bytes(e.receive));
    assert(b.subrange(112, 120) =~= spec_u64_to_le_bytes(e.lock_period as u64));
    let x = e.lock_period;
    assert((x as u64) as i64 == x) by (bit_vector);
}

/// Writing back an escrow read from account data reproduces the bytes it was read from.
pub proof fn lemma_anchor_escrow_write_after_read(buf: Seq<u8>)
    requires
        escrow_deserialized(buf) is Ok,
    ensures
        escrow_deserialized(buf)->Ok_0.wf(),
        escrow_account_bytes(escrow_deserialized(buf)->Ok_0) == buf.take(8 + Escrow::INIT_SPACE),
{
    lemma_auto_spec_u64_to_from_le_bytes();
    let e = escrow_deserialized(buf)->Ok_0;
    let b = buf.skip(8);
    let bits = spec_u64_from_le_bytes(b.subrange(112, 120));
    assert((bits as i64) as u64 == bits) by (bit_vector);
    assert(spec_u64_to_le_bytes(e.seed) == b.subrange(0, 8));
    assert(spec_u64_to_le_bytes(e.receive) == b.subrange(104, 112));
    assert(spec_u64_to_le_bytes(e.lock_period as u64) == b.subrange(112, 120));
    assert(escrow_account_bytes(e) =~= buf.take(8 + Escrow::INIT_SPACE));
}

/// An escrow account's data is 129 bytes: the discriminator `31, 213, 123, 187, 186, 22, 218,
/// 155`, then the fields in declaration order, each raw at its place: the seed little-endian at
/// 8, the maker, mint A and mint B keys at 16, 48 and 80, the wanted amount at 112, the lock
/// period (two's complement, little-endian) at 120 and the bump at 128. Reading account data
/// takes each field from that place.
pub proof fn lemma_anchor_escrow_layout(e: EscrowView, buf: Seq<u8>)
    requires
        e.wf(),
    ensures
        Escrow::INIT_SPACE == 121,
        escrow_account_bytes(e).len() == 129,
        escrow_account_bytes(e).take(8) == seq![31u8, 213u8, 123u8, 187u8, 186u8, 22u8, 218u8, 155u8],
        escrow_account_bytes(e).subrange(8, 16) == spec_u64_to_le_bytes(e.seed),
        escrow_account_bytes(e).subrange(16, 48) == e.maker,
        escrow_account_bytes(e).subrange(48, 80) == e.mint_a,
        escrow_account_bytes(e).subrange(80, 112) == e.mint_b,
        escrow_account_bytes(e).subrange(112, 120) == spec_u64_to_le_bytes(e.receive),
        escrow_account_bytes(e).subrange(120, 128) == spec_u64_to_le_bytes(e.lock_period as u64),
        escrow_account_bytes(e)[128] == e.bump,
        escrow_deserialized(buf) matches Ok(v) ==> {
            &&& buf.len() >= 129
            &&& buf.take(8) == seq![31u8, 213u8, 123u8, 187u8, 186u8, 22u8, 218u8, 155u8]
            &&& v.seed == spec_u64_from_le_bytes(buf.subrange(8, 16))
            &&& v.maker == buf.subrange(16, 48)
            &&& v.mint_a == buf.subrange(48, 80)
            &&& v.mint_b == buf.subrange(80, 112)
            &&& v.receive == spec_u64_from_le_bytes(buf.subrange(112, 120))
            &&& v.lock_period == spec_u64_from_le_bytes(buf.subrange(120, 128)) as i64
            &&& v.bump == buf[128]
        },
{
    lemma_auto_spec_u64_to_from_le_bytes();
    let b = escrow_account_bytes(e);
    assert(b.take(8) =~= seq![31u8, 213u8, 123u8, 187u8, 186u8, 22u8, 218u8, 155u8]);
    assert(b.subrange(8, 16) =~= spec_u64_to_le_bytes(e.seed));
    assert(b.subrange(16, 48) =~= e.maker);
    assert(b.subrange(48, 80) =~= e.mint_a);
    assert(b.subrange(80, 112) =~= e.mint_b);
    assert(b.subrange(112, 120) =~= spec_u64_to_le_bytes(e.receive));
    assert(b.subrange(120, 128) =~= spec_u64_to_le_bytes(e.lock_period as u64));
    if escrow_deserialized(buf) is Ok {
        let f = buf.skip(8);
        assert(f.subrange(0, 8) =~= buf.subrange(8, 16));
        assert(f.subrange(8, 40) =~= buf.subrange(16, 48));
        assert(f.subrange(40, 72) =~= buf.subrange(48, 80));
        assert(f.subrange(72, 104) =~= buf.subrange(80, 112));
        assert(f.subrange(104, 112) =~= buf.subrange(112, 120));
        assert(f.subrange(112, 120) =~= buf.subrange(120, 128));
    }
}

/// Reading account data fails with `AccountDiscriminatorNotFound` below 8 bytes, with
/// `AccountDiscriminatorMismatch` when the first 8 bytes are not the discriminator, with
/// `AccountDidNotDeserialize` below 129 bytes, and otherwise succeeds.
pub proof fn lemma_anchor_escrow_read_errors(buf: Seq<u8>)
    ensures
        buf.len() < 8 ==> escrow_deserialized(buf) == Err::<EscrowView, ErrorCode>(
            ErrorCode::AccountDiscriminatorNotFound,
        ),
        buf.len() >= 8 && buf.take(8) != seq![31u8, 213u8, 123u8, 187u8, 186u8, 22u8, 218u8, 155u8]
            ==> escrow_deserialized(buf) == Err::<EscrowView, ErrorCode>(
            ErrorCode::AccountDiscriminatorMismatch,
        ),
        8 <= buf.len() < 129 && buf.take(8) == seq![31u8, 213u8, 123u8, 187u8, 186u8, 22u8, 218u8, 155u8]
            ==> escrow_deserialized(buf) == Err::<EscrowView, ErrorCode>(
            ErrorCode::AccountDidNotDeserialize,
        ),
        buf.len() >= 129 && buf.take(8) == seq![31u8, 213u8, 123u8, 187u8, 186u8, 22u8, 218u8, 155u8]
            ==> escrow_deserialized(buf) is Ok,
{
}

} // verus!
