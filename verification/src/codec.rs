use vstd::prelude::*;
use vstd::bytes::{spec_u64_from_le_bytes, spec_u64_to_le_bytes, u64_from_le_bytes, u64_to_le_bytes};
use vstd::slice::slice_subrange;

use crate::account::{Pubkey, PUBKEY_BYTES};
use crate::error::ProgramError;

verus! {

/// Copies the 32 bytes at `offset` out of `data` into a key.
pub fn read_pubkey(data: &[u8], offset: usize) -> (k: Pubkey)
    requires
        offset + 32 <= data@.len(),
    ensures
        k@ == data@.subrange(offset as int, offset + 32),
{
    let len = data.len();
    let mut k: Pubkey = [0u8; 32];
    let mut i: usize = 0;
    while i < PUBKEY_BYTES
        invariant
            i <= PUBKEY_BYTES,
            offset + 32 <= data@.len(),
            len == data@.len(),
            k@.len() == 32,
            forall|j: int| 0 <= j < i ==> k@[j] == data@[offset + j],
        decreases PUBKEY_BYTES - i,
    {
        k[i] = data[offset + i];
        i = i + 1;
    }
    assert(k@ =~= data@.subrange(offset as int, offset + 32));
    k
}

/// Reads the little-endian `u64` stored in the 8 bytes at `offset`.
pub fn read_u64_le(data: &[u8], offset: usize) -> (v: u64)
    requires
        offset + 8 <= data@.len(),
    ensures
        v == spec_u64_from_le_bytes(data@.subrange(offset as int, offset + 8)),
{
    let _len = data.len();
    let bytes = slice_subrange(data, offset, offset + 8);
    u64_from_le_bytes(bytes)
}

/// Appends the bytes of `src` to `out`.
pub fn append_bytes(out: &mut Vec<u8>, src: &[u8])
    ensures
        final(out)@ == old(out)@ + src@,
{
    let mut i: usize = 0;
    while i < src.len()
        invariant
            i <= src@.len(),
            out@ == old(out)@ + src@.subrange(0, i as int),
        decreases src@.len() - i,
    {
        out.push(src[i]);
        i = i + 1;
        assert(src@.subrange(0, i as int) =~= src@.subrange(0, (i - 1) as int).push(src@[i - 1]));
    }
    assert(src@.subrange(0, src@.len() as int) =~= src@);
}

/// Appends the little-endian encoding of `v` to `out`.
pub fn append_u64_le(out: &mut Vec<u8>, v: u64)
    ensures
        final(out)@ == old(out)@ + spec_u64_to_le_bytes(v),
{
    let bytes = u64_to_le_bytes(v);
    append_bytes(out, bytes.as_slice());
}

/// Overwrites `buf` from its start with as much of `src` as fits, and reports whether all of it fit.
pub fn write_prefix(buf: &mut [u8], src: &[u8]) -> (all_fit: bool)
    ensures
        all_fit == (src@.len() <= old(buf)@.len()),
        final(buf)@.len() == old(buf)@.len(),
        all_fit ==> final(buf)@ == src@ + old(buf)@.skip(src@.len() as int),
        !all_fit ==> final(buf)@ == src@.take(old(buf)@.len() as int),
{
    let n: usize = if src.len() <= buf.len() { src.len() } else { buf.len() };
    let mut i: usize = 0;
    while i < n
        invariant
            i <= n,
            n <= src@.len(),
            n <= old(buf)@.len(),
            n == src@.len() || n == old(buf)@.len(),
            buf@.len() == old(buf)@.len(),
            forall|j: int| 0 <= j < i ==> buf@[j] == src@[j],
            forall|j: int| i <= j < buf@.len() ==> buf@[j] == old(buf)@[j],
        decreases n - i,
    {
        buf[i] = src[i];
        i = i + 1;
    }
    if src.len() <= buf.len() {
        assert(buf@ =~= src@ + old(buf)@.skip(src@.len() as int));
        true
    } else {
        assert(buf@ =~= src@.take(old(buf)@.len() as int));
        false
    }
}


/// Splits instruction data into its first byte, which selects the instruction, and the rest.
///
/// Empty data selects nothing and is refused as invalid instruction data.
pub fn split_first(data: &[u8]) -> (r: Result<(u8, Vec<u8>), ProgramError>)
    ensures
        data@.len() == 0 ==> r == Err::<(u8, Vec<u8>), ProgramError>(
            ProgramError::InvalidInstructionData,
        ),
        data@.len() > 0 ==> (r matches Ok((d, rest)) && d == data@[0] && rest@ == data@.skip(1)),
{
    let len = data.len();
    if len == 0 {
        return Err(ProgramError::InvalidInstructionData);
    }
    let mut rest: Vec<u8> = Vec::new();
    let mut i: usize = 1;
    while i < len
        invariant
            1 <= i <= len,
            len == data@.len(),
            rest@ == data@.subrange(1, i as int),
        decreases len - i,
    {
        rest.push(data[i]);
        i = i + 1;
        assert(data@.subrange(1, i as int) =~= data@.subrange(1, (i - 1) as int).push(data@[i - 1]));
    }
    assert(data@.subrange(1, len as int) =~= data@.skip(1));
    Ok((data[0], rest))
}

} // verus!
