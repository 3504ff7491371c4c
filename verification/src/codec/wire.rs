//! The primitive layer of the wire format: single bytes, fixed-width
//! little-endian integers, fixed-length byte strings, discriminants and
//! compact integers.

use vstd::prelude::*;
use crate::error::{DecodeError, Decoded, Kind, Parsed, decoded};

verus! {

/// The number of bytes from `pos` to the end of `s`, zero past the end.
pub open spec fn remaining(s: Seq<u8>, pos: int) -> nat {
    if pos <= s.len() {
        (s.len() - pos) as nat
    } else {
        0
    }
}

/// The little-endian value of the bytes `s[from..to]`.
pub open spec fn le_nat(s: Seq<u8>, from: int, to: int) -> nat
    decreases to - from,
{
    if from >= to {
        0
    } else {
        s[from] as nat + 256 * le_nat(s, from + 1, to)
    }
}

/// One byte.
pub open spec fn parse_u8(s: Seq<u8>, pos: int) -> Parsed<u8> {
    if 0 <= pos < s.len() {
        Ok((s[pos], pos + 1))
    } else {
        Err(DecodeError::IncompleteInput)
    }
}

/// Exactly `n` bytes, taken as they are.
pub open spec fn parse_bytes(s: Seq<u8>, pos: int, n: nat) -> Parsed<Seq<u8>> {
    if 0 <= pos && pos + n <= s.len() {
        Ok((s.subrange(pos, pos + n), pos + n))
    } else {
        Err(DecodeError::IncompleteInput)
    }
}

/// A fixed-width little-endian `u32`.
pub open spec fn parse_u32(s: Seq<u8>, pos: int) -> Parsed<u32> {
    if 0 <= pos && pos + 4 <= s.len() {
        Ok((le_nat(s, pos, pos + 4) as u32, pos + 4))
    } else {
        Err(DecodeError::IncompleteInput)
    }
}

/// A fixed-width little-endian `u64`.
pub open spec fn parse_u64(s: Seq<u8>, pos: int) -> Parsed<u64> {
    if 0 <= pos && pos + 8 <= s.len() {
        Ok((le_nat(s, pos, pos + 8) as u64, pos + 8))
    } else {
        Err(DecodeError::IncompleteInput)
    }
}

/// A discriminant of a union `kind` whose variants are numbered below
/// `count`.
pub open spec fn parse_variant(s: Seq<u8>, pos: int, kind: Kind, count: nat) -> Parsed<u8> {
    if 0 <= pos < s.len() {
        if (s[pos] as nat) < count {
            Ok((s[pos], pos + 1))
        } else {
            Err(DecodeError::UnknownVariant(kind, s[pos]))
        }
    } else {
        Err(DecodeError::IncompleteInput)
    }
}

/// A boolean: the two-variant union `false`, `true`.
pub open spec fn parse_bool(s: Seq<u8>, pos: int) -> Parsed<bool> {
    match parse_variant(s, pos, Kind::Bool, 2) {
        Ok((d, end)) => Ok((d == 1, end)),
        Err(e) => Err(e),
    }
}

/// A compact integer of any size. The two low bits of the first byte select
/// the mode: a single byte, two bytes, four bytes, or a length byte followed
/// by that many bytes plus four. Encodings longer than the value needs are
/// read like any other.
pub open spec fn parse_compact_nat(s: Seq<u8>, pos: int) -> Parsed<nat> {
    if !(0 <= pos < s.len()) {
        Err(DecodeError::IncompleteInput)
    } else if s[pos] % 4 == 0 {
        Ok(((s[pos] / 4) as nat, pos + 1))
    } else if s[pos] % 4 == 1 {
        if pos + 2 <= s.len() {
            Ok((le_nat(s, pos, pos + 2) / 4, pos + 2))
        } else {
            Err(DecodeError::IncompleteInput)
        }
    } else if s[pos] % 4 == 2 {
        if pos + 4 <= s.len() {
            Ok((le_nat(s, pos, pos + 4) / 4, pos + 4))
        } else {
            Err(DecodeError::IncompleteInput)
        }
    } else {
        let end = pos + 1 + (s[pos] / 4 + 4);
        if end <= s.len() {
            Ok((le_nat(s, pos + 1, end), end))
        } else {
            Err(DecodeError::IncompleteInput)
        }
    }
}

/// A compact integer that must fit in `max`.
pub open spec fn parse_compact_within(s: Seq<u8>, pos: int, max: nat) -> Parsed<nat> {
    match parse_compact_nat(s, pos) {
        Ok((v, end)) => if v <= max {
            Ok((v, end))
        } else {
            Err(DecodeError::OutOfRange)
        },
        Err(e) => Err(e),
    }
}

/// A compact integer for a 128-bit field.
pub open spec fn parse_compact(s: Seq<u8>, pos: int) -> Parsed<u128> {
    match parse_compact_within(s, pos, u128::MAX as nat) {
        Ok((v, end)) => Ok((v as u128, end)),
        Err(e) => Err(e),
    }
}

/// A compact integer for a 64-bit field.
pub open spec fn parse_compact_u64(s: Seq<u8>, pos: int) -> Parsed<u64> {
    match parse_compact_within(s, pos, u64::MAX as nat) {
        Ok((v, end)) => Ok((v as u64, end)),
        Err(e) => Err(e),
    }
}

/// A compact integer for a 32-bit field.
pub open spec fn parse_compact_u32(s: Seq<u8>, pos: int) -> Parsed<u32> {
    match parse_compact_within(s, pos, u32::MAX as nat) {
        Ok((v, end)) => Ok((v as u32, end)),
        Err(e) => Err(e),
    }
}

/// Dropping low-order bytes never increases a little-endian value.
pub proof fn lemma_le_nat_suffix(s: Seq<u8>, from: int, mid: int, to: int)
    requires
        from <= mid <= to,
    ensures
        le_nat(s, mid, to) <= le_nat(s, from, to),
    decreases mid - from,
{
    if from < mid {
        lemma_le_nat_suffix(s, from + 1, mid, to);
    }
}

/// The little-endian value of the bytes `input[from..to]`, or `None` when it
/// does not fit in 128 bits.
fn read_le(input: &[u8], from: usize, to: usize) -> (r: Option<u128>)
    requires
        from <= to <= input.len(),
    ensures
        match r {
            Some(v) => v == le_nat(input@, from as int, to as int),
            None => le_nat(input@, from as int, to as int) > u128::MAX,
        },
{
    let mut acc: u128 = 0;
    let mut i: usize = to;
    while i > from
        invariant
            from <= i <= to <= input.len(),
            acc == le_nat(input@, i as int, to as int),
        decreases i - from,
    {
        let b: u8 = input[i - 1];
        if acc > (u128::MAX - b as u128) / 256 {
            proof {
                lemma_le_nat_suffix(input@, from as int, i - 1, to as int);
            }
            return None;
        }
        acc = acc * 256 + b as u128;
        i = i - 1;
    }
    Some(acc)
}

/// Reads one byte.
pub fn decode_u8(input: &[u8], pos: usize) -> (r: Decoded<u8>)
    ensures
        decoded(r) == parse_u8(input@, pos as int),
{
    if pos < input.len() {
        Ok((input[pos], pos + 1))
    } else {
        Err(DecodeError::IncompleteInput)
    }
}

/// Reads a byte string of the fixed length `N`.
pub fn decode_array<const N: usize>(input: &[u8], pos: usize) -> (r: Decoded<[u8; N]>)
    ensures
        decoded(r) == parse_bytes(input@, pos as int, N as nat),
{
    if pos > input.len() || input.len() - pos < N {
        return Err(DecodeError::IncompleteInput);
    }
    let mut out: [u8; N] = [0u8; N];
    let mut i: usize = 0;
    while i < N
        invariant
            i <= N,
            pos + N <= input.len(),
            forall|j: int| 0 <= j < i ==> out@[j] == input@[pos + j],
        decreases N - i,
    {
        out[i] = input[pos + i];
        i = i + 1;
    }
    assert(out@ =~= input@.subrange(pos as int, pos + N));
    Ok((out, pos + N))
}

/// Copies `input[from..to]`.
pub fn copy_range(input: &[u8], from: usize, to: usize) -> (r: Vec<u8>)
    requires
        from <= to <= input.len(),
    ensures
        r@ == input@.subrange(from as int, to as int),
{
    let mut out: Vec<u8> = Vec::new();
    let mut i: usize = from;
    while i < to
        invariant
            from <= i <= to <= input.len(),
            out@ == input@.subrange(from as int, i as int),
        decreases to - i,
    {
        out.push(input[i]);
        assert(out@ =~= input@.subrange(from as int, i + 1));
        i = i + 1;
    }
    out
}

/// Reads a byte string of length `n`.
pub fn decode_bytes(input: &[u8], pos: usize, n: usize) -> (r: Decoded<Vec<u8>>)
    ensures
        decoded(r) == parse_bytes(input@, pos as int, n as nat),
{
    if pos > input.len() || input.len() - pos < n {
        return Err(DecodeError::IncompleteInput);
    }
    Ok((copy_range(input, pos, pos + n), pos + n))
}

/// Reads a fixed-width little-endian `u32`.
pub fn decode_u32(input: &[u8], pos: usize) -> (r: Decoded<u32>)
    ensures
        decoded(r) == parse_u32(input@, pos as int),
{
    if pos > input.len() || input.len() - pos < 4 {
        return Err(DecodeError::IncompleteInput);
    }
    proof {
        reveal_with_fuel(le_nat, 5);
    }
    let v: u32 = input[pos] as u32 + 256 * (input[pos + 1] as u32 + 256 * (input[pos + 2] as u32
        + 256 * (input[pos + 3] as u32)));
    Ok((v, pos + 4))
}

/// Reads a fixed-width little-endian `u64`.
pub fn decode_u64(input: &[u8], pos: usize) -> (r: Decoded<u64>)
    ensures
        decoded(r) == parse_u64(input@, pos as int),
{
    if pos > input.len() || input.len() - pos < 8 {
        return Err(DecodeError::IncompleteInput);
    }
    proof {
        reveal_with_fuel(le_nat, 9);
    }
    let high: u64 = input[pos + 4] as u64 + 256 * (input[pos + 5] as u64 + 256 * (input[pos
        + 6] as u64 + 256 * (input[pos + 7] as u64)));
    let low: u64 = input[pos] as u64 + 256 * (input[pos + 1] as u64 + 256 * (input[pos + 2] as u64
        + 256 * (input[pos + 3] as u64)));
    Ok((low + 4294967296 * high, pos + 8))
}

/// Reads the discriminant of a union `kind` whose variants are numbered
/// below `count`.
pub fn decode_variant(input: &[u8], pos: usize, kind: Kind, count: u8) -> (r: Decoded<u8>)
    ensures
        decoded(r) == parse_variant(input@, pos as int, kind, count as nat),
{
    if pos >= input.len() {
        return Err(DecodeError::IncompleteInput);
    }
    let d: u8 = input[pos];
    if d < count {
        Ok((d, pos + 1))
    } else {
        Err(DecodeError::UnknownVariant(kind, d))
    }
}

/// Reads a boolean.
pub fn decode_bool(input: &[u8], pos: usize) -> (r: Decoded<bool>)
    ensures
        decoded(r) == parse_bool(input@, pos as int),
{
    let (d, end) = decode_variant(input, pos, Kind::Bool, 2)?;
    Ok((d == 1, end))
}

/// Reads a compact integer into 128 bits.
pub fn decode_compact(input: &[u8], pos: usize) -> (r: Decoded<u128>)
    ensures
        decoded(r) == parse_compact(input@, pos as int),
{
    if pos >= input.len() {
        return Err(DecodeError::IncompleteInput);
    }
    let first: u8 = input[pos];
    let mode: u8 = first % 4;
    let left: usize = input.len() - pos;
    proof {
        reveal_with_fuel(le_nat, 5);
    }
    if mode == 0 {
        Ok(((first / 4) as u128, pos + 1))
    } else if mode == 1 {
        if left < 2 {
            return Err(DecodeError::IncompleteInput);
        }
        let raw: u128 = first as u128 + 256 * (input[pos + 1] as u128);
        Ok((raw / 4, pos + 2))
    } else if mode == 2 {
        if left < 4 {
            return Err(DecodeError::IncompleteInput);
        }
        let high: u128 = input[pos + 2] as u128 + 256 * (input[pos + 3] as u128);
        let raw: u128 = first as u128 + 256 * (input[pos + 1] as u128 + 256 * high);
        Ok((raw / 4, pos + 4))
    } else {
        let count: usize = (first / 4) as usize + 4;
        if left - 1 < count {
            return Err(DecodeError::IncompleteInput);
        }
        match read_le(input, pos + 1, pos + 1 + count) {
            Some(v) => Ok((v, pos + 1 + count)),
            None => Err(DecodeError::OutOfRange),
        }
    }
}

/// Reads a compact integer into 64 bits.
pub fn decode_compact_u64(input: &[u8], pos: usize) -> (r: Decoded<u64>)
    ensures
        decoded(r) == parse_compact_u64(input@, pos as int),
{
    let (v, end) = decode_compact(input, pos)?;
    if v <= u64::MAX as u128 {
        Ok((v as u64, end))
    } else {
        Err(DecodeError::OutOfRange)
    }
}

/// Reads a compact integer into 32 bits.
pub fn decode_compact_u32(input: &[u8], pos: usize) -> (r: Decoded<u32>)
    ensures
        decoded(r) == parse_compact_u32(input@, pos as int),
{
    let (v, end) = decode_compact(input, pos)?;
    if v <= u32::MAX as u128 {
        Ok((v as u32, end))
    } else {
        Err(DecodeError::OutOfRange)
    }
}

} // verus!
