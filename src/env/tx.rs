//! Host functions that read the block and the transaction being executed.
use crate::env::crypto::write_answer;
use crate::env::{memory_error_code, read_memory, region, Field};
use crate::env::memory::numeric_error_code;
use crate::error::Result;
use crate::node::Node;
use crate::runtime::utils::be_value;
use crate::runtime::Runtime;
use crate::vm::Vm;
use vstd::prelude::*;

verus! {

/// The bytes of a field name: the engine's own name, or the bytes the guest names.
pub fn field_bytes(field: &Field, memory: &[u8]) -> (r: Option<Vec<u8>>)
    ensures
        field matches Field::Binary(offset, length) ==> match region(memory@, *offset, *length) {
            Some(b) => r matches Some(v) && v@ == b,
            None => r is None,
        },
        field is String ==> r is Some,
{
    match field {
        Field::String(name) => {
            let bytes: &[u8] = name.as_str().as_bytes();
            let mut out: Vec<u8> = Vec::new();
            let mut i: usize = 0;
            while i < bytes.len()
                invariant
                    i <= bytes@.len(),
                    out@ == bytes@.subrange(0, i as int),
                decreases bytes@.len() - i,
            {
                out.push(bytes[i]);
                i = i + 1;
                assert(out@ =~= bytes@.subrange(0, i as int));
            }
            assert(out@ =~= bytes@);
            Some(out)
        },
        Field::Binary(offset, length) => read_memory(memory, *offset, *length),
    }
}

/// An integer field of a block, sent by the node as 8 big-endian bytes:
/// `(0, value)`, or `ConvertingNumericTypes` for any other length.
pub fn block_int(bytes: &[u8]) -> (r: (i32, i64))
    ensures
        bytes@.len() == 8 ==> r == (0i32, (be_value(bytes@) as u64) as i64),
        bytes@.len() != 8 ==> r == (numeric_error_code(), 0i64),
{
    if bytes.len() != 8 {
        return (305, 0);
    }
    let mut offset: usize = 0;
    match crate::runtime::utils::get_i64(bytes, &mut offset) {
        Ok(v) => {
            assert(bytes@.subrange(0, 8) =~= bytes@);
            (0, v)
        },
        Err(_) => (305, 0),
    }
}

/// An integer field of the current block.
pub fn get_block_field<N: Node>(node: &N, memory: &[u8], field: Field) -> (r: (i32, i64))
    ensures
        field matches Field::Binary(offset, length) && region(memory@, offset, length) is None
            ==> r == (memory_error_code(), 0i64),
{
    let name = match field_bytes(&field, memory) {
        Some(b) => b,
        None => return (102, 0),
    };
    match node.block(name.as_slice()) {
        Ok(bytes) => block_int(bytes.as_slice()),
        Err(e) => (e.as_i32(), 0),
    }
}

/// Hands the guest a field of the current block.
pub fn block<N: Node>(ctx: &mut Runtime, node: &N, memory: &mut [u8], field: Field) -> (r: (
    i32,
    i32,
    i32,
))
    requires
        old(ctx).wf(),
    ensures
        final(ctx).wf(),
        field matches Field::Binary(offset, length) && region(old(memory)@, offset, length) is None
            ==> r == (memory_error_code(), 0i32, 0i32) && *final(ctx) == *old(ctx),
{
    let name = match field_bytes(&field, memory) {
        Some(b) => b,
        None => return (102, 0, 0),
    };
    let answer = node.block(name.as_slice());
    write_answer(ctx, memory, answer)
}

/// Hands the guest a field of the transaction being executed.
pub fn tx<N: Node>(ctx: &mut Runtime, node: &N, memory: &mut [u8], field: Field) -> (r: (
    i32,
    i32,
    i32,
))
    requires
        old(ctx).wf(),
    ensures
        final(ctx).wf(),
        field matches Field::Binary(offset, length) && region(old(memory)@, offset, length) is None
            ==> r == (memory_error_code(), 0i32, 0i32) && *final(ctx) == *old(ctx),
{
    let name = match field_bytes(&field, memory) {
        Some(b) => b,
        None => return (102, 0, 0),
    };
    let answer = node.tx(name.as_slice());
    write_answer(ctx, memory, answer)
}

/// The number of payments attached to the running invocation.
pub fn payments_count<N: Node>(vm: &Vm, node: &N) -> (r: (i32, i64))
    ensures
        r.0 != 0 ==> r.1 == 0,
{
    let payment_id = vm.top_frame().payment_id();
    match node.get_tx_payments(payment_id.as_slice()) {
        Ok(n) => (0, n),
        Err(e) => (e.as_i32(), 0),
    }
}

/// The status and 32-bit count for the node's answer on the number of
/// payments: the count when it fits, `ConvertingNumericTypes` when it does not,
/// the node's error code on failure.
pub fn payments_status(answer: Result<i64>) -> (r: (i32, i32))
    ensures
        match answer {
            Ok(n) => if i32::MIN <= n <= i32::MAX {
                r == (0i32, n as i32)
            } else {
                r == (numeric_error_code(), 0i32)
            },
            Err(e) => r == (e.code(), 0i32),
        },
{
    match answer {
        Ok(n) => if n < i32::MIN as i64 || n > i32::MAX as i64 {
            (305, 0)
        } else {
            (0, n as i32)
        },
        Err(e) => (e.as_i32(), 0),
    }
}

/// The number of payments attached to the running invocation, as a 32-bit
/// count, asked of the node under the running frame's payment identifier.
pub fn get_payments<N: Node>(vm: &Vm, node: &N) -> (r: (i32, i32))
    ensures
        r.0 != 0 ==> r.1 == 0,
{
    let payment_id = vm.top_frame().payment_id();
    payments_status(node.get_tx_payments(payment_id.as_slice()))
}

/// Hands the guest the asset of the `number`-th payment attached to the running invocation.
pub fn get_payment_asset_id<N: Node>(
    ctx: &mut Runtime,
    vm: &Vm,
    node: &N,
    memory: &mut [u8],
    number: i64,
) -> (r: (i32, i32, i32))
    requires
        old(ctx).wf(),
    ensures
        final(ctx).wf(),
{
    let payment_id = vm.top_frame().payment_id();
    let answer = node.get_tx_payment_asset_id(payment_id.as_slice(), number);
    write_answer(ctx, memory, answer)
}

/// The amount of the `number`-th payment attached to the running invocation.
pub fn get_payment_amount<N: Node>(vm: &Vm, node: &N, number: i64) -> (r: (i32, i64))
    ensures
        r.0 != 0 ==> r.1 == 0,
{
    let payment_id = vm.top_frame().payment_id();
    match node.get_tx_payment_amount(payment_id.as_slice(), number) {
        Ok(amount) => (0, amount),
        Err(e) => {
            let code = e.as_i32();
            (code, 0)
        },
    }
}

/// Whether the node holds an entry under a key of guest memory, for the
/// address the guest names or for the running contract: `(0, 1)` or `(0, 0)`.
pub fn contains_key<N: Node>(
    vm: &Vm,
    node: &N,
    memory: &[u8],
    offset_address: u32,
    length_address: u32,
    offset_key: u32,
    length_key: u32,
) -> (r: (i32, i32))
    ensures
        crate::env::storage::storage_args_out_of_range(
            memory@,
            offset_address,
            length_address,
            offset_key,
            length_key,
        ) ==> r == (memory_error_code(), 0i32),
        r.0 == 0 ==> r.1 == 0 || r.1 == 1,
        r.0 != 0 ==> r.1 == 0,
{
    let address = match crate::env::storage::storage_address(vm, memory, offset_address, length_address) {
        Some(a) => a,
        None => return (102, 0),
    };
    let key = match read_memory(memory, offset_key, length_key) {
        Some(k) => k,
        None => return (102, 0),
    };
    match node.contains_key(address.as_slice(), key.as_slice()) {
        Ok(found) => (0, if found { 1 } else { 0 }),
        Err(e) => (e.as_i32(), 0),
    }
}

} // verus!
