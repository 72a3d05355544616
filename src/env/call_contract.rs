//! Host functions that prepare and conclude a call from one contract into another.
use crate::env::{memory_error_code, read_memory, region};
use crate::env::memory::{numeric_error_code, utf8_error_code};
use crate::error::{Error, Result};
use crate::exec::Value;
use crate::node::Node;
use crate::runtime::data_entry::{entries_bytes, DataEntry, DataValue};
use crate::runtime::payments::payments_bytes;
use crate::runtime::payment_id::payment_id_bytes;
use crate::runtime::text::{utf8_decode, utf8_string};
use crate::runtime::utils::{be_bytes, copy_bytes};
use crate::runtime::Runtime;
use crate::vm::{create_payment_id, Vm};
use vstd::prelude::*;

verus! {

/// The status `InvalidResult`: a callee that did not return exactly one 32-bit status.
pub open spec fn invalid_result_code() -> i32 {
    303
}

/// Adds an integer argument for the next call.
pub fn call_arg_int(ctx: &mut Runtime, value: i64)
    requires
        old(ctx).wf(),
        old(ctx).pending_params().len() < 0xffff,
    ensures
        final(ctx).wf(),
        final(ctx).pending_params() == old(ctx).pending_params().push(DataEntry::Integer(value)@),
        final(ctx).pending_payments() == old(ctx).pending_payments(),
        final(ctx).spec_heap_base() == old(ctx).spec_heap_base(),
{
    ctx.push_argument(DataEntry::Integer(value));
}

/// Adds a boolean argument for the next call.
pub fn call_arg_bool(ctx: &mut Runtime, value: i32)
    requires
        old(ctx).wf(),
        old(ctx).pending_params().len() < 0xffff,
    ensures
        final(ctx).wf(),
        final(ctx).pending_params() == old(ctx).pending_params().push(DataEntry::Boolean(value)@),
        final(ctx).pending_payments() == old(ctx).pending_payments(),
        final(ctx).spec_heap_base() == old(ctx).spec_heap_base(),
{
    ctx.push_argument(DataEntry::Boolean(value));
}

/// Adds a byte-string argument, read from guest memory, for the next call.
pub fn call_arg_binary(ctx: &mut Runtime, memory: &[u8], offset_value: u32, length_value: u32) -> (r:
    i32)
    requires
        old(ctx).wf(),
        old(ctx).pending_params().len() < 0xffff,
    ensures
        final(ctx).wf(),
        final(ctx).pending_payments() == old(ctx).pending_payments(),
        final(ctx).spec_heap_base() == old(ctx).spec_heap_base(),
        match region(memory@, offset_value, length_value) {
            Some(b) => r == 0 && final(ctx).pending_params() == old(ctx).pending_params().push(
                crate::runtime::data_entry::DataValue::Binary(b),
            ),
            None => r == memory_error_code() && final(ctx).pending_params() == old(
                ctx,
            ).pending_params(),
        },
{
    match read_memory(memory, offset_value, length_value) {
        Some(value) => {
            ctx.push_argument(DataEntry::Binary(value));
            0
        },
        None => 102,
    }
}

/// Adds a string argument, read from guest memory, for the next call.
pub fn call_arg_string(ctx: &mut Runtime, memory: &[u8], offset_value: u32, length_value: u32) -> (r:
    i32)
    requires
        old(ctx).wf(),
        old(ctx).pending_params().len() < 0xffff,
    ensures
        final(ctx).wf(),
        final(ctx).pending_payments() == old(ctx).pending_payments(),
        final(ctx).spec_heap_base() == old(ctx).spec_heap_base(),
        match region(memory@, offset_value, length_value) {
            Some(b) => r == 0 && final(ctx).pending_params() == old(ctx).pending_params().push(
                crate::runtime::data_entry::DataValue::String(b),
            ),
            None => r == memory_error_code() && final(ctx).pending_params() == old(
                ctx,
            ).pending_params(),
        },
{
    match read_memory(memory, offset_value, length_value) {
        Some(value) => {
            ctx.push_argument(DataEntry::String(value));
            0
        },
        None => 102,
    }
}

/// Adds a payment of `amount` of the asset named in guest memory (the empty
/// name is the native asset) to the next call.
pub fn call_payment(
    ctx: &mut Runtime,
    memory: &[u8],
    offset_asset_id: u32,
    length_asset_id: u32,
    amount: i64,
) -> (r: i32)
    requires
        old(ctx).wf(),
    ensures
        final(ctx).wf(),
        final(ctx).pending_params() == old(ctx).pending_params(),
        final(ctx).spec_heap_base() == old(ctx).spec_heap_base(),
        match region(memory@, offset_asset_id, length_asset_id) {
            Some(b) => r == 0 && final(ctx).pending_payments() == old(ctx).pending_payments().push(
                (b, amount),
            ),
            None => r == memory_error_code() && final(ctx).pending_payments() == old(
                ctx,
            ).pending_payments(),
        },
{
    match read_memory(memory, offset_asset_id, length_asset_id) {
        Some(asset_id) => {
            ctx.push_payment(asset_id.as_slice(), amount);
            0
        },
        None => 102,
    }
}

/// A call into another contract, ready to run.
pub struct PreparedCall {
    pub callee: Vec<u8>,
    pub bytecode: Vec<u8>,
    pub func_name: String,
    pub params: Vec<u8>,
    pub nonce: u64,
    pub payment_id: Vec<u8>,
    /// The contract that makes the call.
    pub caller: Vec<u8>,
    /// The encoded payments the call carries, if the caller gathered any.
    pub payments: Option<Vec<u8>>,
}

/// The parameters a call passes: the blob the guest names, or else the
/// arguments it gathered, in their list encoding.
pub open spec fn call_params(ctx: Runtime, memory: Seq<u8>, params: Option<(u32, u32)>) -> Option<
    Seq<u8>,
> {
    match params {
        Some((offset, length)) => region(memory, offset, length),
        None => Some(be_bytes(ctx.pending_params().len(), 2) + entries_bytes(ctx.pending_params())),
    }
}

/// The status of a call that the guest's arguments already rule out, if any:
/// a name outside memory or not UTF-8, a parameter blob outside memory, or no
/// nonce left.
pub open spec fn call_args_status(
    ctx: Runtime,
    vm: Vm,
    memory: Seq<u8>,
    offset_func_name: u32,
    length_func_name: u32,
    params: Option<(u32, u32)>,
) -> Option<i32> {
    match region(memory, offset_func_name, length_func_name) {
        None => Some(memory_error_code()),
        Some(name) => if utf8_decode(name) is None {
            Some(utf8_error_code())
        } else if call_params(ctx, memory, params) is None {
            Some(memory_error_code())
        } else if vm.spec_nonce() == u64::MAX {
            Some(numeric_error_code())
        } else {
            None
        },
    }
}

/// Prepares a call into `callee`, whose bytecode the node has given: reads the
/// function name, takes the parameters (the blob the guest names, or the
/// gathered arguments, which are then dropped), draws a fresh nonce and the
/// payment identifier it gives, and takes the gathered payments. Fails, with
/// nothing changed, with the status of the first argument that rules the call
/// out.
pub fn prepare_call_with(
    ctx: &mut Runtime,
    vm: &mut Vm,
    memory: &[u8],
    callee: Vec<u8>,
    bytecode: Vec<u8>,
    offset_func_name: u32,
    length_func_name: u32,
    params: Option<(u32, u32)>,
) -> (r: core::result::Result<PreparedCall, i32>)
    requires
        old(ctx).wf(),
    ensures
        final(ctx).wf(),
        final(vm).frames() == old(vm).frames(),
        final(vm).first_frame() == old(vm).first_frame(),
        final(vm).settings() == old(vm).settings(),
        final(ctx).spec_heap_base() == old(ctx).spec_heap_base(),
        match call_args_status(*old(ctx), *old(vm), memory@, offset_func_name, length_func_name, params) {
            Some(code) => r == Err::<PreparedCall, i32>(code) && *final(ctx) == *old(ctx)
                && *final(vm) == *old(vm),
            None => r matches Ok(c) && {
                &&& c.callee@ == callee@
                &&& c.bytecode@ == bytecode@
                &&& region(memory@, offset_func_name, length_func_name) matches Some(name)
                    && utf8_decode(name) == Some(c.func_name@)
                &&& call_params(*old(ctx), memory@, params) == Some(c.params@)
                &&& c.nonce == old(vm).spec_nonce() + 1
                &&& final(vm).spec_nonce() == c.nonce
                &&& c.payment_id@ == payment_id_bytes(callee@, c.nonce)
                &&& c.caller@ == old(vm).spec_top().contract_id
                &&& if old(ctx).pending_payments().len() == 0 {
                    c.payments is None
                } else {
                    c.payments matches Some(p) && p@ == be_bytes(
                        old(ctx).pending_payments().len(),
                        2,
                    ) + payments_bytes(old(ctx).pending_payments())
                }
                &&& final(ctx).pending_payments() == Seq::<(Seq<u8>, i64)>::empty()
                &&& if params is None {
                    final(ctx).pending_params() == Seq::<DataValue>::empty()
                } else {
                    final(ctx).pending_params() == old(ctx).pending_params()
                }
            },
        },
{
    let name_bytes = match read_memory(memory, offset_func_name, length_func_name) {
        Some(b) => b,
        None => return Err(102),
    };
    let func_name = match utf8_string(name_bytes) {
        Some(s) => s,
        None => return Err(302),
    };
    let blob = match params {
        Some((offset, length)) => match read_memory(memory, offset, length) {
            Some(b) => Some(b),
            None => return Err(102),
        },
        None => None,
    };
    if !vm.has_fresh_nonce() {
        return Err(305);
    }
    let call_params = match blob {
        Some(b) => b,
        None => ctx.take_params(),
    };
    let nonce = vm.get_nonce();
    let payment_id = create_payment_id(copy_bytes(callee.as_slice()), nonce);
    let caller = vm.top_frame().contract_id();
    let payments = ctx.take_payments();
    Ok(PreparedCall { callee, bytecode, func_name, params: call_params, nonce, payment_id, caller, payments })
}

/// The status of registering a call's payments with the node: success, or the
/// node's error code as it is.
pub fn registration_status(answer: Result<()>) -> (r: core::result::Result<(), i32>)
    ensures
        match answer {
            Ok(()) => r is Ok,
            Err(e) => r == Err::<(), i32>(e.code()),
        },
{
    match answer {
        Ok(()) => Ok(()),
        Err(e) => Err(e.as_i32()),
    }
}

/// Prepares a call from the running contract into another: reads the callee
/// from guest memory, asks the node for its bytecode, prepares the rest with
/// `prepare_call_with`, and registers the payments it carries, if any, with
/// the node under the caller and the call's payment identifier. Fails with the
/// status to hand back to the guest.
pub fn prepare_call<N: Node>(
    ctx: &mut Runtime,
    vm: &mut Vm,
    node: &N,
    memory: &[u8],
    offset_contract_id: u32,
    length_contract_id: u32,
    offset_func_name: u32,
    length_func_name: u32,
    params: Option<(u32, u32)>,
) -> (r: core::result::Result<PreparedCall, i32>)
    requires
        old(ctx).wf(),
    ensures
        final(ctx).wf(),
        final(vm).frames() == old(vm).frames(),
        final(vm).first_frame() == old(vm).first_frame(),
        final(vm).settings() == old(vm).settings(),
        final(ctx).spec_heap_base() == old(ctx).spec_heap_base(),
        region(memory@, offset_contract_id, length_contract_id) is None ==> r == Err::<
            PreparedCall,
            i32,
        >(memory_error_code()) && *final(ctx) == *old(ctx) && *final(vm) == *old(vm),
        r matches Ok(c) ==> {
            &&& region(memory@, offset_contract_id, length_contract_id) == Some(c.callee@)
            &&& call_args_status(*old(ctx), *old(vm), memory@, offset_func_name, length_func_name, params) is None
            &&& region(memory@, offset_func_name, length_func_name) matches Some(name)
                && utf8_decode(name) == Some(c.func_name@)
            &&& call_params(*old(ctx), memory@, params) == Some(c.params@)
            &&& c.nonce == old(vm).spec_nonce() + 1
            &&& final(vm).spec_nonce() == c.nonce
            &&& c.payment_id@ == payment_id_bytes(c.callee@, c.nonce)
            &&& c.caller@ == old(vm).spec_top().contract_id
            &&& final(ctx).pending_payments() == Seq::<(Seq<u8>, i64)>::empty()
        },
        r matches Err(code) ==> code != 0,
{
    let callee = match read_memory(memory, offset_contract_id, length_contract_id) {
        Some(b) => b,
        None => return Err(102),
    };
    let bytecode = match node.get_bytecode(callee.as_slice()) {
        Ok(b) => b,
        Err(e) => return Err(e.as_i32()),
    };
    let call = prepare_call_with(
        ctx,
        vm,
        memory,
        callee,
        bytecode,
        offset_func_name,
        length_func_name,
        params,
    )?;
    match &call.payments {
        Some(payments) => {
            registration_status(
                node.add_payments(call.caller.as_slice(), call.payment_id.as_slice(), payments.as_slice()),
            )?;
        },
        None => {},
    }
    Ok(call)
}

/// The status a call hands back to its caller: the callee's single 32-bit
/// result; `InvalidResult` when the callee returned anything else; the error's
/// code when the call failed.
pub fn call_result_status(result: &Result<Vec<Value>>) -> (r: i32)
    ensures
        match result {
            Ok(values) => if values@.len() == 1 && values@[0] matches Value::I32(_) {
                values@[0] == Value::I32(r)
            } else {
                r == invalid_result_code()
            },
            Err(e) => r == e.code(),
        },
{
    match result {
        Ok(values) => {
            if values.len() != 1 {
                return 303;
            }
            match values[0] {
                Value::I32(v) => v,
                _ => 303,
            }
        },
        Err(e) => e.as_i32(),
    }
}

} // verus!
