//! Little-endian field encodings and the discriminator framing shared by the
//! record and the instruction formats.
use vstd::prelude::*;
use vstd::bytes::{
    spec_u16_from_le_bytes, spec_u16_to_le_bytes, spec_u64_from_le_bytes, spec_u64_to_le_bytes,
};
use crate::errors::CodecError;
use crate::pubkey::Pubkey;

verus! {

/// Length of the type tag that starts every record and instruction.
pub const DISCM_LEN: usize = 8;

/// Two's-complement little-endian bytes of a signed 64-bit integer.
pub open spec fn i64_le(x: i64) -> Seq<u8> {
    spec_u64_to_le_bytes(x as u64)
}

/// The signed 64-bit integer that eight little-endian bytes hold.
pub open spec fn i64_from_le(s: Seq<u8>) -> i64 {
    spec_u64_from_le_bytes(s) as i64
}

pub open spec fn u16_le(x: u16) -> Seq<u8> {
    spec_u16_to_le_bytes(x)
}

pub open spec fn u16_from_le(s: Seq<u8>) -> u16 {
    spec_u16_from_le_bytes(s)
}

/// The unsigned 64-bit integer that eight little-endian bytes hold.
pub open spec fn u64_from_le(s: Seq<u8>) -> u64 {
    spec_u64_from_le_bytes(s)
}

pub proof fn lemma_i64_le(x: i64)
    ensures
        i64_le(x).len() == 8,
        i64_from_le(i64_le(x)) == x,
{
    vstd::bytes::lemma_auto_spec_u64_to_from_le_bytes();
    assert(((x as u64) as i64) == x) by (bit_vector);
}

pub proof fn lemma_i64_from_le(s: Seq<u8>)
    requires
        s.len() == 8,
    ensures
        i64_le(i64_from_le(s)) == s,
{
    vstd::bytes::lemma_auto_spec_u64_to_from_le_bytes();
    let x = spec_u64_from_le_bytes(s);
    assert(((x as i64) as u64) == x) by (bit_vector);
}

pub proof fn lemma_u16_le(x: u16)
    ensures
        u16_le(x).len() == 2,
        u16_from_le(u16_le(x)) == x,
{
    vstd::bytes::lemma_auto_spec_u16_to_from_le_bytes();
    assert(spec_u16_to_le_bytes(x).len() == 2);
}

pub proof fn lemma_u16_from_le(s: Seq<u8>)
    requires
        s.len() == 2,
    ensures
        u16_le(u16_from_le(s)) == s,
{
    vstd::bytes::lemma_auto_spec_u16_to_from_le_bytes();
}

/// Why `s` is not a frame of `len` bytes that starts with `discm`, if it is
/// not: too short to hold the tag, a wrong tag, or too short for the fields.
pub open spec fn frame_error(s: Seq<u8>, discm: Seq<u8>, len: nat) -> Option<CodecError> {
    if s.len() < DISCM_LEN {
        Some(CodecError::TruncatedInput)
    } else if s.subrange(0, DISCM_LEN as int) != discm {
        Some(CodecError::DiscriminatorMismatch)
    } else if s.len() < len {
        Some(CodecError::TruncatedInput)
    } else {
        None
    }
}

/// Whether the first eight bytes of `buf` are `discm`.
pub fn starts_with(buf: &[u8], discm: &[u8; 8]) -> (r: bool)
    requires
        buf@.len() >= DISCM_LEN,
    ensures
        r == (buf@.subrange(0, DISCM_LEN as int) == discm@),
{
    let mut i: usize = 0;
    while i < DISCM_LEN
        invariant
            i <= DISCM_LEN,
            buf@.len() >= DISCM_LEN,
            forall|j: int| 0 <= j < i ==> buf@[j] == discm@[j],
        decreases DISCM_LEN - i,
    {
        if buf[i] != discm[i] {
            assert(buf@.subrange(0, DISCM_LEN as int)[i as int] != discm@[i as int]);
            return false;
        }
        i += 1;
    }
    assert(buf@.subrange(0, DISCM_LEN as int) =~= discm@);
    true
}

/// Checks that `buf` is a frame of `len` bytes tagged with `discm`.
pub fn check_frame(buf: &[u8], discm: &[u8; 8], len: usize) -> (r: Result<(), CodecError>)
    ensures
        match frame_error(buf@, discm@, len as nat) {
            Some(e) => r == Err::<(), CodecError>(e),
            None => r is Ok,
        },
{
    if buf.len() < DISCM_LEN {
        Err(CodecError::TruncatedInput)
    } else if !starts_with(buf, discm) {
        Err(CodecError::DiscriminatorMismatch)
    } else if buf.len() < len {
        Err(CodecError::TruncatedInput)
    } else {
        Ok(())
    }
}

pub fn read_i64(buf: &[u8], pos: usize) -> (r: i64)
    requires
        pos + 8 <= buf@.len(),
    ensures
        r == i64_from_le(buf@.subrange(pos as int, pos + 8)),
{
    let _n = buf.len();
    let s = vstd::slice::slice_subrange(buf, pos, pos + 8);
    #[verifier::truncate]
    (vstd::bytes::u64_from_le_bytes(s) as i64)
}

pub fn read_u64(buf: &[u8], pos: usize) -> (r: u64)
    requires
        pos + 8 <= buf@.len(),
    ensures
        r == u64_from_le(buf@.subrange(pos as int, pos + 8)),
{
    let _n = buf.len();
    let s = vstd::slice::slice_subrange(buf, pos, pos + 8);
    vstd::bytes::u64_from_le_bytes(s)
}

pub fn read_u16(buf: &[u8], pos: usize) -> (r: u16)
    requires
        pos + 2 <= buf@.len(),
    ensures
        r == u16_from_le(buf@.subrange(pos as int, pos + 2)),
{
    let _n = buf.len();
    let s = vstd::slice::slice_subrange(buf, pos, pos + 2);
    vstd::bytes::u16_from_le_bytes(s)
}

pub fn read_pubkey(buf: &[u8], pos: usize) -> (r: Pubkey)
    requires
        pos + 32 <= buf@.len(),
    ensures
        r@ == buf@.subrange(pos as int, pos + 32),
{
    let n = buf.len();
    let mut bytes = [0u8; 32];
    let mut i: usize = 0;
    while i < 32
        invariant
            i <= 32,
            pos + 32 <= n,
            n == buf@.len(),
            bytes@.len() == 32,
            forall|j: int| 0 <= j < i ==> bytes@[j] == buf@[pos + j],
        decreases 32 - i,
    {
        bytes[i] = buf[pos + i];
        i += 1;
    }
    assert(bytes@ =~= buf@.subrange(pos as int, pos + 32));
    Pubkey(bytes)
}

pub fn write_bytes(out: &mut Vec<u8>, b: &[u8])
    ensures
        final(out)@ == old(out)@ + b@,
{
    let mut i: usize = 0;
    while i < b.len()
        invariant
            i <= b@.len(),
            out@ == old(out)@ + b@.subrange(0, i as int),
        decreases b@.len() - i,
    {
        out.push(b[i]);
        i += 1;
        assert(out@ =~= old(out)@ + b@.subrange(0, i as int));
    }
    assert(b@.subrange(0, b@.len() as int) =~= b@);
}

pub fn write_i64(out: &mut Vec<u8>, x: i64)
    ensures
        final(out)@ == old(out)@ + i64_le(x),
{
    let mut bytes = vstd::bytes::u64_to_le_bytes(x as u64);
    out.append(&mut bytes);
}

pub fn write_u16(out: &mut Vec<u8>, x: u16)
    ensures
        final(out)@ == old(out)@ + u16_le(x),
{
    let mut bytes = vstd::bytes::u16_to_le_bytes(x);
    out.append(&mut bytes);
}

} // verus!
