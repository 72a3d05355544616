//! Host functions for base58 text, the calling contract, and guest assertions.
use crate::env::crypto::write_answer;
use crate::env::memory::{utf8_error_code, wrote};
use crate::env::{memory_error_code, read_memory, region};
use crate::node::Node;
use crate::runtime::text::{utf8_decode, utf8_string};
use crate::runtime::Runtime;
use crate::vm::Vm;
use vstd::prelude::*;

verus! {

/// The bytes that base58 text decodes to, or nothing when it is not base58.
pub uninterp spec fn base58_decoded(text: Seq<char>) -> Option<Seq<u8>>;

/// The bytes of the base58 text of `b`.
pub uninterp spec fn base58_encoded(b: Seq<u8>) -> Seq<u8>;

/// Relies on `base58::FromBase58::from_base58` for `str`: the decoded bytes, or
/// nothing on a character outside the alphabet or an overlong input. Longer
/// text than its 132-byte buffer can make it panic, so it is not admitted.
#[verifier::external_body]
fn from_base58(text: &str) -> (r: Option<Vec<u8>>)
    requires
        text@.len() <= 132,
    ensures
        match r {
            Some(b) => base58_decoded(text@) == Some(b@),
            None => base58_decoded(text@) is None,
        },
{
    base58::FromBase58::from_base58(text).ok()
}

/// Relies on `base58::ToBase58::to_base58` for `[u8]`: the bytes of the text.
#[verifier::external_body]
fn to_base58(bytes: &[u8]) -> (r: Vec<u8>)
    ensures
        r@ == base58_encoded(bytes@),
{
    base58::ToBase58::to_base58(bytes).into_bytes()
}

/// The longest base58 text the decoder accepts.
pub open spec fn base58_max_len() -> nat {
    132
}

/// The status `Base58Error`.
pub open spec fn base58_error_code() -> i32 {
    304
}

/// Decodes base58 text of guest memory and hands the guest the bytes; text of
/// more than 132 bytes is refused with `Base58Error`.
pub fn base58(ctx: &mut Runtime, memory: &mut [u8], offset_bytes: u32, length_bytes: u32) -> (r: (
    i32,
    i32,
    i32,
))
    requires
        old(ctx).wf(),
    ensures
        final(ctx).wf(),
        match region(old(memory)@, offset_bytes, length_bytes) {
            Some(b) => if b.len() > base58_max_len() {
                r == (base58_error_code(), 0i32, 0i32) && *final(ctx) == *old(ctx)
            } else {
                match utf8_decode(b) {
                Some(text) => match base58_decoded(text) {
                    Some(bytes) => wrote(*old(ctx), *final(ctx), old(memory)@, final(memory)@, bytes, r),
                    None => r == (base58_error_code(), 0i32, 0i32) && *final(ctx) == *old(ctx),
                },
                None => r == (utf8_error_code(), 0i32, 0i32) && *final(ctx) == *old(ctx),
            }},
            None => r == (memory_error_code(), 0i32, 0i32) && *final(ctx) == *old(ctx),
        },
{
    let bytes = match read_memory(memory, offset_bytes, length_bytes) {
        Some(b) => b,
        None => return (102, 0, 0),
    };
    if bytes.len() > 132 {
        return (304, 0, 0);
    }
    let text = match utf8_string(bytes) {
        Some(s) => s,
        None => return (302, 0, 0),
    };
    match from_base58(text.as_str()) {
        Some(result) => ctx.write_memory(memory, result.as_slice()),
        None => (304, 0, 0),
    }
}

/// Hands the guest the base58 text of a byte string of its memory.
pub fn to_base58_string(ctx: &mut Runtime, memory: &mut [u8], offset_bytes: u32, length_bytes: u32) -> (r: (
    i32,
    i32,
    i32,
))
    requires
        old(ctx).wf(),
    ensures
        final(ctx).wf(),
        match region(old(memory)@, offset_bytes, length_bytes) {
            Some(b) => wrote(*old(ctx), *final(ctx), old(memory)@, final(memory)@, base58_encoded(b), r),
            None => r == (memory_error_code(), 0i32, 0i32) && *final(ctx) == *old(ctx),
        },
{
    let bytes = match read_memory(memory, offset_bytes, length_bytes) {
        Some(b) => b,
        None => return (102, 0, 0),
    };
    let result = to_base58(bytes.as_slice());
    ctx.write_memory(memory, result.as_slice())
}

/// Hands the guest the identifier of the contract that called the running one
/// (empty for the top-level invocation).
pub fn caller(ctx: &mut Runtime, vm: &Vm, memory: &mut [u8]) -> (r: (i32, i32, i32))
    requires
        old(ctx).wf(),
    ensures
        final(ctx).wf(),
        vm.frames().len() == 0 ==> wrote(
            *old(ctx),
            *final(ctx),
            old(memory)@,
            final(memory)@,
            Seq::empty(),
            r,
        ),
        vm.frames().len() == 1 ==> wrote(
            *old(ctx),
            *final(ctx),
            old(memory)@,
            final(memory)@,
            vm.first_frame().contract_id,
            r,
        ),
        vm.frames().len() >= 2 ==> wrote(
            *old(ctx),
            *final(ctx),
            old(memory)@,
            final(memory)@,
            vm.frames()[vm.frames().len() - 2].contract_id,
            r,
        ),
{
    let result = vm.get_caller_current_frame();
    ctx.write_memory(memory, result.as_slice())
}

/// Passes a guest assertion message, which must be UTF-8, to the node.
pub fn require<N: Node>(node: &N, memory: &[u8], offset_message: u32, length_message: u32) -> (r:
    i32)
    ensures
        region(memory@, offset_message, length_message) is None ==> r == memory_error_code(),
        region(memory@, offset_message, length_message) matches Some(b) && utf8_decode(b) is None
            ==> r == utf8_error_code(),
{
    let message = match read_memory(memory, offset_message, length_message) {
        Some(b) => b,
        None => return 102,
    };
    let copy = message.clone();
    if utf8_string(copy).is_none() {
        return 302;
    }
    match node.require(message.as_slice()) {
        Ok(()) => 0,
        Err(e) => e.as_i32(),
    }
}

} // verus!
