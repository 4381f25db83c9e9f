//! The byte representation of values: fixed-width little-endian integers, laid end to end.

use vstd::bytes::{
    lemma_auto_spec_u32_to_from_le_bytes, lemma_auto_spec_u64_to_from_le_bytes,
    lemma_auto_spec_u128_to_from_le_bytes, spec_u128_from_le_bytes, spec_u128_to_le_bytes,
    spec_u32_from_le_bytes, spec_u32_to_le_bytes, spec_u64_from_le_bytes, spec_u64_to_le_bytes,
    u128_from_le_bytes, u128_to_le_bytes, u32_from_le_bytes, u32_to_le_bytes, u64_from_le_bytes,
    u64_to_le_bytes,
};
use vstd::prelude::*;
use vstd::slice::slice_subrange;

verus! {

/// Why a value could not be read from, or written as, bytes.
#[derive(Clone, Copy, Debug, PartialEq, Eq, Structural)]
pub enum Error {
    /// The bytes ended before the value did.
    EarlyEndOfStream,
    /// The bytes do not spell a value of the type asked for.
    Formatting,
    /// Bytes were left over after the value.
    LeftOverBytes,
    /// The value has no byte representation.
    NotRepresentable,
    /// Memory for the bytes could not be had.
    OutOfMemory,
}

pub const U8_SERIALIZED_LENGTH: usize = 1;

pub const U32_SERIALIZED_LENGTH: usize = 4;

pub const U64_SERIALIZED_LENGTH: usize = 8;

pub const U128_SERIALIZED_LENGTH: usize = 16;

/// The value and the rest, where `bytes` start with a `u8`.
pub open spec fn spec_read_u8(bytes: Seq<u8>) -> Option<(u8, Seq<u8>)> {
    if bytes.len() >= 1 {
        Some((bytes[0], bytes.skip(1)))
    } else {
        None
    }
}

/// The value and the rest, where `bytes` start with a little-endian `u32`.
pub open spec fn spec_read_u32(bytes: Seq<u8>) -> Option<(u32, Seq<u8>)> {
    if bytes.len() >= 4 {
        Some((spec_u32_from_le_bytes(bytes.subrange(0, 4)), bytes.skip(4)))
    } else {
        None
    }
}

/// The value and the rest, where `bytes` start with a little-endian `u64`.
pub open spec fn spec_read_u64(bytes: Seq<u8>) -> Option<(u64, Seq<u8>)> {
    if bytes.len() >= 8 {
        Some((spec_u64_from_le_bytes(bytes.subrange(0, 8)), bytes.skip(8)))
    } else {
        None
    }
}

/// The value and the rest, where `bytes` start with a little-endian `u128`.
pub open spec fn spec_read_u128(bytes: Seq<u8>) -> Option<(u128, Seq<u8>)> {
    if bytes.len() >= 16 {
        Some((spec_u128_from_le_bytes(bytes.subrange(0, 16)), bytes.skip(16)))
    } else {
        None
    }
}

/// Reading a written `u8` gives it back, with what followed it.
pub proof fn lemma_read_written_u8(x: u8, rest: Seq<u8>)
    ensures
        spec_read_u8(seq![x] + rest) == Some((x, rest)),
{
    assert((seq![x] + rest).skip(1) =~= rest);
}

/// Reading a written `u32` gives it back, with what followed it.
pub proof fn lemma_read_written_u32(x: u32, rest: Seq<u8>)
    ensures
        spec_u32_to_le_bytes(x).len() == 4,
        spec_read_u32(spec_u32_to_le_bytes(x) + rest) == Some((x, rest)),
{
    lemma_auto_spec_u32_to_from_le_bytes();
    let all = spec_u32_to_le_bytes(x) + rest;
    assert(all.subrange(0, 4) =~= spec_u32_to_le_bytes(x));
    assert(all.skip(4) =~= rest);
}

/// Reading a written `u64` gives it back, with what followed it.
pub proof fn lemma_read_written_u64(x: u64, rest: Seq<u8>)
    ensures
        spec_u64_to_le_bytes(x).len() == 8,
        spec_read_u64(spec_u64_to_le_bytes(x) + rest) == Some((x, rest)),
{
    lemma_auto_spec_u64_to_from_le_bytes();
    let all = spec_u64_to_le_bytes(x) + rest;
    assert(all.subrange(0, 8) =~= spec_u64_to_le_bytes(x));
    assert(all.skip(8) =~= rest);
}

/// Reading a written `u128` gives it back, with what followed it.
pub proof fn lemma_read_written_u128(x: u128, rest: Seq<u8>)
    ensures
        spec_u128_to_le_bytes(x).len() == 16,
        spec_read_u128(spec_u128_to_le_bytes(x) + rest) == Some((x, rest)),
{
    lemma_auto_spec_u128_to_from_le_bytes();
    let all = spec_u128_to_le_bytes(x) + rest;
    assert(all.subrange(0, 16) =~= spec_u128_to_le_bytes(x));
    assert(all.skip(16) =~= rest);
}

/// Appends `x` to `out`.
pub fn write_u8(out: &mut Vec<u8>, x: u8)
    ensures
        final(out)@ == old(out)@ + seq![x],
{
    out.push(x);
    assert(out@ =~= old(out)@ + seq![x]);
}

/// Appends the four little-endian bytes of `x` to `out`.
pub fn write_u32(out: &mut Vec<u8>, x: u32)
    ensures
        final(out)@ == old(out)@ + spec_u32_to_le_bytes(x),
{
    let mut bytes: Vec<u8> = u32_to_le_bytes(x);
    out.append(&mut bytes);
}

/// Appends the eight little-endian bytes of `x` to `out`.
pub fn write_u64(out: &mut Vec<u8>, x: u64)
    ensures
        final(out)@ == old(out)@ + spec_u64_to_le_bytes(x),
{
    let mut bytes: Vec<u8> = u64_to_le_bytes(x);
    out.append(&mut bytes);
}

/// Appends the sixteen little-endian bytes of `x` to `out`.
pub fn write_u128(out: &mut Vec<u8>, x: u128)
    ensures
        final(out)@ == old(out)@ + spec_u128_to_le_bytes(x),
{
    let mut bytes: Vec<u8> = u128_to_le_bytes(x);
    out.append(&mut bytes);
}

/// Appends `bytes` to `out`.
pub fn write_bytes(out: &mut Vec<u8>, bytes: &[u8])
    ensures
        final(out)@ == old(out)@ + bytes@,
{
    let n: usize = bytes.len();
    let mut i: usize = 0;
    while i < n
        invariant
            n == bytes@.len(),
            i <= n,
            out@ == old(out)@ + bytes@.subrange(0, i as int),
        decreases n - i,
    {
        out.push(bytes[i]);
        assert(out@ =~= old(out)@ + bytes@.subrange(0, i + 1));
        i = i + 1;
    }
    assert(bytes@.subrange(0, n as int) =~= bytes@);
}

/// Reads a `u8` off the front of `bytes`.
pub fn read_u8(bytes: &[u8]) -> (r: Result<(u8, &[u8]), Error>)
    ensures
        match r {
            Ok((value, rest)) => spec_read_u8(bytes@) == Some((value, rest@)),
            Err(e) => e == Error::EarlyEndOfStream && spec_read_u8(bytes@) is None,
        },
{
    if bytes.len() < 1 {
        return Err(Error::EarlyEndOfStream);
    }
    let value: u8 = bytes[0];
    let rest: &[u8] = slice_subrange(bytes, 1, bytes.len());
    assert(rest@ =~= bytes@.skip(1));
    Ok((value, rest))
}

/// Reads a little-endian `u32` off the front of `bytes`.
pub fn read_u32(bytes: &[u8]) -> (r: Result<(u32, &[u8]), Error>)
    ensures
        match r {
            Ok((value, rest)) => spec_read_u32(bytes@) == Some((value, rest@)),
            Err(e) => e == Error::EarlyEndOfStream && spec_read_u32(bytes@) is None,
        },
{
    if bytes.len() < 4 {
        return Err(Error::EarlyEndOfStream);
    }
    let value: u32 = u32_from_le_bytes(slice_subrange(bytes, 0, 4));
    let rest: &[u8] = slice_subrange(bytes, 4, bytes.len());
    assert(rest@ =~= bytes@.skip(4));
    Ok((value, rest))
}

/// Reads a little-endian `u64` off the front of `bytes`.
pub fn read_u64(bytes: &[u8]) -> (r: Result<(u64, &[u8]), Error>)
    ensures
        match r {
            Ok((value, rest)) => spec_read_u64(bytes@) == Some((value, rest@)),
            Err(e) => e == Error::EarlyEndOfStream && spec_read_u64(bytes@) is None,
        },
{
    if bytes.len() < 8 {
        return Err(Error::EarlyEndOfStream);
    }
    let value: u64 = u64_from_le_bytes(slice_subrange(bytes, 0, 8));
    let rest: &[u8] = slice_subrange(bytes, 8, bytes.len());
    assert(rest@ =~= bytes@.skip(8));
    Ok((value, rest))
}

/// Reads a little-endian `u128` off the front of `bytes`.
pub fn read_u128(bytes: &[u8]) -> (r: Result<(u128, &[u8]), Error>)
    ensures
        match r {
            Ok((value, rest)) => spec_read_u128(bytes@) == Some((value, rest@)),
            Err(e) => e == Error::EarlyEndOfStream && spec_read_u128(bytes@) is None,
        },
{
    if bytes.len() < 16 {
        return Err(Error::EarlyEndOfStream);
    }
    let value: u128 = u128_from_le_bytes(slice_subrange(bytes, 0, 16));
    let rest: &[u8] = slice_subrange(bytes, 16, bytes.len());
    assert(rest@ =~= bytes@.skip(16));
    Ok((value, rest))
}

/// The byte representation of a string of bytes: its length as a little-endian `u64`, then
/// the bytes.
pub open spec fn spec_byte_string(bytes: Seq<u8>) -> Seq<u8> {
    spec_u64_to_le_bytes(bytes.len() as u64) + bytes
}

/// The byte representation of text: its UTF-8 bytes as a string of bytes.
pub open spec fn spec_text(text: Seq<char>) -> Seq<u8> {
    spec_byte_string(vstd::utf8::encode_utf8(text))
}

/// Appends the length `len` to `out`.
pub fn write_length(out: &mut Vec<u8>, len: usize)
    ensures
        final(out)@ == old(out)@ + spec_u64_to_le_bytes(len as u64),
{
    write_u64(out, len as u64);
}

/// Appends the byte representation of the string of bytes `bytes` to `out`.
pub fn write_byte_string(out: &mut Vec<u8>, bytes: &[u8])
    ensures
        final(out)@ == old(out)@ + spec_byte_string(bytes@),
{
    write_length(out, bytes.len());
    write_bytes(out, bytes);
    assert(out@ =~= old(out)@ + spec_byte_string(bytes@));
}

/// Appends the byte representation of `text` to `out`.
pub fn write_text(out: &mut Vec<u8>, text: &String)
    ensures
        final(out)@ == old(out)@ + spec_text(text@),
        vstd::utf8::encode_utf8(text@).len() <= usize::MAX,
{
    let bytes: &[u8] = text.as_str().as_bytes();
    assert(bytes@.len() <= usize::MAX) by {
        vstd::slice::axiom_spec_len(bytes);
    }
    write_byte_string(out, bytes);
}

} // verus!
