//! Host functions that hash guest bytes or check signatures.
use crate::env::memory::wrote;
use crate::env::{memory_error_code, read_memory, region};
use crate::node::Node;
use crate::runtime::Runtime;
use vstd::prelude::*;

verus! {

/// The BLAKE2b digest of `b` with a 256-bit output.
pub uninterp spec fn blake2b256_of(b: Seq<u8>) -> Seq<u8>;

/// The Keccak-256 digest of `b`.
pub uninterp spec fn keccak256_of(b: Seq<u8>) -> Seq<u8>;

/// The SHA-256 digest of `b`.
pub uninterp spec fn sha256_of(b: Seq<u8>) -> Seq<u8>;

/// Relies on `blake2::Blake2b<U32>` through `Digest::digest`: the 32-byte digest.
#[verifier::external_body]
fn blake2b256_digest(b: &[u8]) -> (r: Vec<u8>)
    ensures
        r@ == blake2b256_of(b@),
        r@.len() == 32,
{
    <blake2::Blake2b<blake2::digest::consts::U32> as blake2::Digest>::digest(b).to_vec()
}

/// Relies on `sha3::Keccak256` through `Digest::digest`: the 32-byte digest.
#[verifier::external_body]
fn keccak256_digest(b: &[u8]) -> (r: Vec<u8>)
    ensures
        r@ == keccak256_of(b@),
        r@.len() == 32,
{
    <sha3::Keccak256 as sha3::Digest>::digest(b).to_vec()
}

/// Relies on `sha2::Sha256` through `Digest::digest`: the 32-byte digest.
#[verifier::external_body]
fn sha256_digest(b: &[u8]) -> (r: Vec<u8>)
    ensures
        r@ == sha256_of(b@),
        r@.len() == 32,
{
    <sha2::Sha256 as sha2::Digest>::digest(b).to_vec()
}

/// Which digest a host function computes.
#[derive(Debug, Clone, Copy, PartialEq, Eq, Structural)]
pub enum Digest {
    Blake2b256,
    Keccak256,
    Sha256,
}

/// The digest `d` of `b`.
pub open spec fn digest_of(d: Digest, b: Seq<u8>) -> Seq<u8> {
    match d {
        Digest::Blake2b256 => blake2b256_of(b),
        Digest::Keccak256 => keccak256_of(b),
        Digest::Sha256 => sha256_of(b),
    }
}

/// Computes the digest `d` of `bytes`.
pub fn digest(d: Digest, bytes: &[u8]) -> (r: Vec<u8>)
    ensures
        r@ == digest_of(d, bytes@),
        r@.len() == 32,
{
    match d {
        Digest::Blake2b256 => blake2b256_digest(bytes),
        Digest::Keccak256 => keccak256_digest(bytes),
        Digest::Sha256 => sha256_digest(bytes),
    }
}

/// Hands the guest the digest `d` of a byte string of its memory.
pub fn hash(d: Digest, ctx: &mut Runtime, memory: &mut [u8], offset_bytes: u32, length_bytes: u32) -> (r:
    (i32, i32, i32))
    requires
        old(ctx).wf(),
    ensures
        final(ctx).wf(),
        match region(old(memory)@, offset_bytes, length_bytes) {
            Some(b) => wrote(*old(ctx), *final(ctx), old(memory)@, final(memory)@, digest_of(d, b), r),
            None => r == (memory_error_code(), 0i32, 0i32) && *final(ctx) == *old(ctx)
                && final(memory)@ == old(memory)@,
        },
{
    let bytes = match read_memory(memory, offset_bytes, length_bytes) {
        Some(b) => b,
        None => return (102, 0, 0),
    };
    let result = digest(d, bytes.as_slice());
    ctx.write_memory(memory, result.as_slice())
}

/// Hands the guest the BLAKE2b-256 digest of a byte string of its memory.
pub fn blake2b256(ctx: &mut Runtime, memory: &mut [u8], offset_bytes: u32, length_bytes: u32) -> (r:
    (i32, i32, i32))
    requires
        old(ctx).wf(),
    ensures
        final(ctx).wf(),
        match region(old(memory)@, offset_bytes, length_bytes) {
            Some(b) => wrote(*old(ctx), *final(ctx), old(memory)@, final(memory)@, blake2b256_of(b), r),
            None => r == (memory_error_code(), 0i32, 0i32) && *final(ctx) == *old(ctx)
                && final(memory)@ == old(memory)@,
        },
{
    hash(Digest::Blake2b256, ctx, memory, offset_bytes, length_bytes)
}

/// Hands the guest the Keccak-256 digest of a byte string of its memory.
pub fn keccak256(ctx: &mut Runtime, memory: &mut [u8], offset_bytes: u32, length_bytes: u32) -> (r:
    (i32, i32, i32))
    requires
        old(ctx).wf(),
    ensures
        final(ctx).wf(),
        match region(old(memory)@, offset_bytes, length_bytes) {
            Some(b) => wrote(*old(ctx), *final(ctx), old(memory)@, final(memory)@, keccak256_of(b), r),
            None => r == (memory_error_code(), 0i32, 0i32) && *final(ctx) == *old(ctx)
                && final(memory)@ == old(memory)@,
        },
{
    hash(Digest::Keccak256, ctx, memory, offset_bytes, length_bytes)
}

/// Hands the guest the SHA-256 digest of a byte string of its memory.
pub fn sha256(ctx: &mut Runtime, memory: &mut [u8], offset_bytes: u32, length_bytes: u32) -> (r:
    (i32, i32, i32))
    requires
        old(ctx).wf(),
    ensures
        final(ctx).wf(),
        match region(old(memory)@, offset_bytes, length_bytes) {
            Some(b) => wrote(*old(ctx), *final(ctx), old(memory)@, final(memory)@, sha256_of(b), r),
            None => r == (memory_error_code(), 0i32, 0i32) && *final(ctx) == *old(ctx)
                && final(memory)@ == old(memory)@,
        },
{
    hash(Digest::Sha256, ctx, memory, offset_bytes, length_bytes)
}

/// Hands the guest the node's answer to a byte-producing request, or the
/// node's error code.
pub fn write_answer(ctx: &mut Runtime, memory: &mut [u8], answer: crate::error::Result<Vec<u8>>) -> (r:
    (i32, i32, i32))
    requires
        old(ctx).wf(),
    ensures
        final(ctx).wf(),
        match answer {
            Ok(b) => wrote(*old(ctx), *final(ctx), old(memory)@, final(memory)@, b@, r),
            Err(e) => r == (e.code(), 0i32, 0i32) && *final(ctx) == *old(ctx) && final(memory)@
                == old(memory)@,
        },
{
    match answer {
        Ok(bytes) => ctx.write_memory(memory, bytes.as_slice()),
        Err(e) => (e.as_i32(), 0, 0),
    }
}

/// Hands the guest the node's fast hash of a byte string of its memory.
pub fn fast_hash<N: Node>(
    ctx: &mut Runtime,
    node: &N,
    memory: &mut [u8],
    offset_bytes: u32,
    length_bytes: u32,
) -> (r: (i32, i32, i32))
    requires
        old(ctx).wf(),
    ensures
        final(ctx).wf(),
        region(old(memory)@, offset_bytes, length_bytes) is None ==> r == (
            memory_error_code(),
            0i32,
            0i32,
        ) && *final(ctx) == *old(ctx),
{
    let bytes = match read_memory(memory, offset_bytes, length_bytes) {
        Some(b) => b,
        None => return (102, 0, 0),
    };
    let answer = node.fast_hash(bytes.as_slice());
    write_answer(ctx, memory, answer)
}

/// Hands the guest the node's secure hash of a byte string of its memory.
pub fn secure_hash<N: Node>(
    ctx: &mut Runtime,
    node: &N,
    memory: &mut [u8],
    offset_bytes: u32,
    length_bytes: u32,
) -> (r: (i32, i32, i32))
    requires
        old(ctx).wf(),
    ensures
        final(ctx).wf(),
        region(old(memory)@, offset_bytes, length_bytes) is None ==> r == (
            memory_error_code(),
            0i32,
            0i32,
        ) && *final(ctx) == *old(ctx),
{
    let bytes = match read_memory(memory, offset_bytes, length_bytes) {
        Some(b) => b,
        None => return (102, 0, 0),
    };
    let answer = node.secure_hash(bytes.as_slice());
    write_answer(ctx, memory, answer)
}

/// Asks the node whether `signature` signs `message` under `public_key`, all
/// in guest memory: `(0, 1)` or `(0, 0)`, or the node's error code.
pub fn sig_verify<N: Node>(
    node: &N,
    memory: &[u8],
    offset_message: u32,
    length_message: u32,
    offset_signature: u32,
    length_signature: u32,
    offset_public_key: u32,
    length_public_key: u32,
) -> (r: (i32, i32))
    ensures
        region(memory@, offset_message, length_message) is None || region(
            memory@,
            offset_signature,
            length_signature,
        ) is None || region(memory@, offset_public_key, length_public_key) is None ==> r == (
            memory_error_code(),
            0i32,
        ),
        r.0 == 0 ==> r.1 == 0 || r.1 == 1,
{
    let message = match read_memory(memory, offset_message, length_message) {
        Some(b) => b,
        None => return (102, 0),
    };
    let signature = match read_memory(memory, offset_signature, length_signature) {
        Some(b) => b,
        None => return (102, 0),
    };
    let public_key = match read_memory(memory, offset_public_key, length_public_key) {
        Some(b) => b,
        None => return (102, 0),
    };
    match node.sig_verify(message.as_slice(), signature.as_slice(), public_key.as_slice()) {
        Ok(valid) => (0, if valid { 1 } else { 0 }),
        Err(e) => (e.as_i32(), 0),
    }
}

} // verus!
