//! Big-endian readers over a byte buffer with a moving cursor.
use crate::error::{Error, ExecutableError, Result};
use vstd::arithmetic::div_mod::lemma_mod_breakdown;
use vstd::prelude::*;

verus! {

/// `256` to the power `n`.
pub open spec fn pow256(n: nat) -> nat
    decreases n,
{
    if n == 0 {
        1
    } else {
        256 * pow256((n - 1) as nat)
    }
}

/// The number that `s` spells in big-endian order.
pub open spec fn be_value(s: Seq<u8>) -> nat
    decreases s.len(),
{
    if s.len() == 0 {
        0
    } else {
        be_value(s.drop_last()) * 256 + s.last() as nat
    }
}

/// The `n` low bytes of `x`, most significant first.
pub open spec fn be_bytes(x: nat, n: nat) -> Seq<u8>
    decreases n,
{
    if n == 0 {
        Seq::empty()
    } else {
        be_bytes(x / 256, (n - 1) as nat).push((x % 256) as u8)
    }
}

/// The error that every malformed or truncated input gives.
pub open spec fn deserialize_error() -> Error {
    Error::Executable(ExecutableError::FailedDeserialize)
}

pub proof fn lemma_pow256_positive(n: nat)
    ensures
        pow256(n) > 0,
    decreases n,
{
    if n > 0 {
        lemma_pow256_positive((n - 1) as nat);
    }
}

pub proof fn lemma_pow256_mono(a: nat, b: nat)
    requires
        a <= b,
    ensures
        pow256(a) <= pow256(b),
    decreases b,
{
    if a < b {
        lemma_pow256_mono(a, (b - 1) as nat);
        lemma_pow256_positive((b - 1) as nat);
    }
}

pub proof fn lemma_pow256_values()
    ensures
        pow256(1) == 0x100,
        pow256(2) == 0x1_0000,
        pow256(4) == 0x1_0000_0000,
        pow256(8) == 0x1_0000_0000_0000_0000,
{
    reveal_with_fuel(pow256, 9);
}

pub proof fn lemma_be_bytes_len(x: nat, n: nat)
    ensures
        be_bytes(x, n).len() == n,
    decreases n,
{
    if n > 0 {
        lemma_be_bytes_len(x / 256, (n - 1) as nat);
    }
}

pub proof fn lemma_be_value_bound(s: Seq<u8>)
    ensures
        be_value(s) < pow256(s.len()),
    decreases s.len(),
{
    if s.len() > 0 {
        let init = s.drop_last();
        lemma_be_value_bound(init);
        let a = be_value(init);
        let p = pow256(init.len());
        let b = s.last() as nat;
        assert(a * 256 + b < p * 256) by (nonlinear_arith)
            requires
                a < p,
                b < 256,
        ;
    }
}

/// Writing `n` bytes of `x` and reading them back gives `x` modulo `256^n`.
pub proof fn lemma_be_round_trip(x: nat, n: nat)
    ensures
        be_value(be_bytes(x, n)) == x % pow256(n),
    decreases n,
{
    if n == 0 {
    } else {
        let m = (n - 1) as nat;
        lemma_be_round_trip(x / 256, m);
        let s = be_bytes(x, n);
        assert(s.drop_last() =~= be_bytes(x / 256, m));
        lemma_pow256_positive(m);
        lemma_mod_breakdown(x as int, 256, pow256(m) as int);
        assert(256 * pow256(m) == pow256(m) * 256) by (nonlinear_arith);
        assert(((x / 256) % pow256(m)) * 256 == 256 * ((x / 256) % pow256(m))) by (nonlinear_arith);
    }
}

/// Reading bytes written from a value below `256^n` gives the value back.
pub proof fn lemma_be_round_trip_exact(x: nat, n: nat)
    requires
        x < pow256(n),
    ensures
        be_value(be_bytes(x, n)) == x,
{
    lemma_be_round_trip(x, n);
    vstd::arithmetic::div_mod::lemma_small_mod(x, pow256(n));
}

/// The number spelled by the `n` bytes of `bytes`, which must be at most eight.
fn be_int(bytes: &Vec<u8>) -> (r: u64)
    requires
        bytes@.len() <= 8,
    ensures
        r as nat == be_value(bytes@),
{
    let mut v: u64 = 0;
    let mut i: usize = 0;
    proof {
        lemma_pow256_values();
    }
    while i < bytes.len()
        invariant
            i <= bytes@.len() <= 8,
            v as nat == be_value(bytes@.subrange(0, i as int)),
            pow256(8) == 0x1_0000_0000_0000_0000,
        decreases bytes@.len() - i,
    {
        let ghost prefix = bytes@.subrange(0, i as int);
        let ghost next = bytes@.subrange(0, i + 1);
        proof {
            assert(next.drop_last() =~= prefix);
            lemma_be_value_bound(next);
            lemma_pow256_mono((i + 1) as nat, 8);
        }
        v = v * 256 + bytes[i] as u64;
        i = i + 1;
    }
    assert(bytes@.subrange(0, i as int) =~= bytes@);
    v
}

/// Appends the `n` low bytes of `x` to `out`, most significant first.
pub fn write_be(out: &mut Vec<u8>, x: u64, n: usize)
    ensures
        final(out)@ == old(out)@ + be_bytes(x as nat, n as nat),
    decreases n,
{
    if n > 0 {
        write_be(out, x / 256, n - 1);
        out.push((x % 256) as u8);
        assert(final(out)@ =~= old(out)@ + be_bytes(x as nat, n as nat));
    } else {
        assert(final(out)@ =~= old(out)@ + be_bytes(x as nat, n as nat));
    }
}

/// Appends the bytes of `src` to `out`.
pub fn extend_bytes(out: &mut Vec<u8>, src: &[u8])
    ensures
        final(out)@ == old(out)@ + src@,
{
    let mut i: usize = 0;
    while i < src.len()
        invariant
            i <= src@.len(),
            out@ == old(out)@ + src@.subrange(0, i as int),
        decreases src@.len() - i,
    {
        out.push(src[i]);
        i = i + 1;
        assert(out@ =~= old(out)@ + src@.subrange(0, i as int));
    }
    assert(src@.subrange(0, i as int) =~= src@);
}

/// A fresh vector holding the bytes of `src`.
pub fn copy_bytes(src: &[u8]) -> (r: Vec<u8>)
    ensures
        r@ == src@,
{
    let mut out: Vec<u8> = Vec::new();
    extend_bytes(&mut out, src);
    assert(out@ =~= src@);
    out
}

/// Reads `length` bytes at the cursor and moves the cursor past them.
pub fn get_bytes(input: &[u8], offset: &mut usize, length: usize) -> (r: Result<Vec<u8>>)
    ensures
        *old(offset) + length <= input@.len() ==> (r matches Ok(bytes) && bytes@ == input@.subrange(
            *old(offset) as int,
            *old(offset) + length,
        ) && *final(offset) == *old(offset) + length),
        *old(offset) + length > input@.len() ==> r == Err::<Vec<u8>, Error>(deserialize_error())
            && *final(offset) == *old(offset),
{
    let start = *offset;
    if start > input.len() || length > input.len() - start {
        return Err(Error::Executable(ExecutableError::FailedDeserialize));
    }
    let mut bytes: Vec<u8> = Vec::with_capacity(length);
    let mut i: usize = 0;
    let total = input.len();
    while i < length
        invariant
            total == input@.len(),
            start + length <= total,
            i <= length,
            bytes@ == input@.subrange(start as int, start + i),
        decreases length - i,
    {
        bytes.push(input[start + i]);
        i = i + 1;
        assert(bytes@ =~= input@.subrange(start as int, start + i));
    }
    *offset = start + length;
    Ok(bytes)
}

/// Reads the number spelled by the `n` bytes at the cursor.
fn get_be(input: &[u8], offset: &mut usize, n: usize) -> (r: Result<u64>)
    requires
        n <= 8,
    ensures
        *old(offset) + n <= input@.len() ==> (r matches Ok(v) && v as nat == be_value(
            input@.subrange(*old(offset) as int, *old(offset) + n),
        ) && *final(offset) == *old(offset) + n),
        *old(offset) + n > input@.len() ==> r == Err::<u64, Error>(deserialize_error())
            && *final(offset) == *old(offset),
{
    let bytes = get_bytes(input, offset, n)?;
    Ok(be_int(&bytes))
}

/// Reads one byte at the cursor.
pub fn get_u8(input: &[u8], offset: &mut usize) -> (r: Result<u8>)
    ensures
        *old(offset) < input@.len() ==> r == Ok::<u8, Error>(input@[*old(offset) as int])
            && *final(offset) == *old(offset) + 1,
        *old(offset) >= input@.len() ==> r == Err::<u8, Error>(deserialize_error())
            && *final(offset) == *old(offset),
{
    let start = *offset;
    let v = get_be(input, offset, 1)?;
    proof {
        let s = input@.subrange(start as int, start + 1);
        assert(s.drop_last() =~= Seq::<u8>::empty());
        assert(be_value(s.drop_last()) == 0);
        assert(be_value(s) == s.last() as nat);
        assert(s.last() == input@[start as int]);
    }
    Ok(v as u8)
}

/// Reads a big-endian `u16` at the cursor.
pub fn get_u16(input: &[u8], offset: &mut usize) -> (r: Result<u16>)
    ensures
        *old(offset) + 2 <= input@.len() ==> (r matches Ok(v) && v as nat == be_value(
            input@.subrange(*old(offset) as int, *old(offset) + 2),
        ) && *final(offset) == *old(offset) + 2),
        *old(offset) + 2 > input@.len() ==> r == Err::<u16, Error>(deserialize_error())
            && *final(offset) == *old(offset),
{
    let start = *offset;
    let v = get_be(input, offset, 2)?;
    proof {
        lemma_be_value_bound(input@.subrange(start as int, start + 2));
        lemma_pow256_values();
    }
    Ok(v as u16)
}

/// Reads a big-endian `u32` at the cursor.
pub fn get_u32(input: &[u8], offset: &mut usize) -> (r: Result<u32>)
    ensures
        *old(offset) + 4 <= input@.len() ==> (r matches Ok(v) && v as nat == be_value(
            input@.subrange(*old(offset) as int, *old(offset) + 4),
        ) && *final(offset) == *old(offset) + 4),
        *old(offset) + 4 > input@.len() ==> r == Err::<u32, Error>(deserialize_error())
            && *final(offset) == *old(offset),
{
    let start = *offset;
    let v = get_be(input, offset, 4)?;
    proof {
        lemma_be_value_bound(input@.subrange(start as int, start + 4));
        lemma_pow256_values();
    }
    Ok(v as u32)
}

/// Reads a big-endian `u64` at the cursor.
pub fn get_u64(input: &[u8], offset: &mut usize) -> (r: Result<u64>)
    ensures
        *old(offset) + 8 <= input@.len() ==> (r matches Ok(v) && v as nat == be_value(
            input@.subrange(*old(offset) as int, *old(offset) + 8),
        ) && *final(offset) == *old(offset) + 8),
        *old(offset) + 8 > input@.len() ==> r == Err::<u64, Error>(deserialize_error())
            && *final(offset) == *old(offset),
{
    get_be(input, offset, 8)
}

/// Reads a big-endian two's complement `i64` at the cursor.
pub fn get_i64(input: &[u8], offset: &mut usize) -> (r: Result<i64>)
    ensures
        *old(offset) + 8 <= input@.len() ==> (r matches Ok(v) && v == (be_value(
            input@.subrange(*old(offset) as int, *old(offset) + 8),
        ) as u64) as i64 && *final(offset) == *old(offset) + 8),
        *old(offset) + 8 > input@.len() ==> r == Err::<i64, Error>(deserialize_error())
            && *final(offset) == *old(offset),
{
    let v = get_be(input, offset, 8)?;
    Ok(v as i64)
}

} // verus!
