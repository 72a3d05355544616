//! Host functions on contract storage: entries are encoded on the way to the
//! node and decoded, and checked for their type, on the way back.
use crate::env::memory::wrote;
use crate::env::{memory_error_code, read_memory, region};
use crate::node::Node;
use crate::runtime::data_entry::{entry_bytes, parse_entry_at, DataEntry, DataValue};
use crate::runtime::Runtime;
use crate::vm::Vm;
use vstd::prelude::*;

verus! {

/// The status `FailedDeserialize`: a stored entry that is malformed or of
/// another type than asked for.
pub open spec fn deserialize_error_code() -> i32 {
    110
}

/// The value of a stored entry, when it parses.
pub open spec fn stored_value(bytes: Seq<u8>) -> Option<DataValue> {
    match parse_entry_at(bytes, 0) {
        Some((_, v, _)) => Some(v),
        None => None,
    }
}

/// Reads a stored integer: `(0, value)`, or `FailedDeserialize`.
pub fn storage_int(bytes: &[u8]) -> (r: (i32, i64))
    ensures
        match stored_value(bytes@) {
            Some(DataValue::Integer(v)) => r == (0i32, v),
            _ => r == (deserialize_error_code(), 0i64),
        },
{
    match DataEntry::deserialize(bytes) {
        Ok(DataEntry::Integer(v)) => (0, v),
        _ => (110, 0),
    }
}

/// Reads a stored boolean: `(0, value)`, or `FailedDeserialize`.
pub fn storage_bool(bytes: &[u8]) -> (r: (i32, i32))
    ensures
        match stored_value(bytes@) {
            Some(DataValue::Boolean(v)) => r == (0i32, v),
            _ => r == (deserialize_error_code(), 0i32),
        },
{
    match DataEntry::deserialize(bytes) {
        Ok(DataEntry::Boolean(v)) => (0, v),
        _ => (110, 0),
    }
}

/// Reads a stored byte string, binary when `binary` holds, else text.
pub fn storage_bytes(bytes: &[u8], binary: bool) -> (r: Option<Vec<u8>>)
    ensures
        match stored_value(bytes@) {
            Some(DataValue::Binary(b)) => if binary {
                r matches Some(v) && v@ == b
            } else {
                r is None
            },
            Some(DataValue::String(b)) => if binary {
                r is None
            } else {
                r matches Some(v) && v@ == b
            },
            _ => r is None,
        },
{
    match DataEntry::deserialize(bytes) {
        Ok(DataEntry::Binary(b)) => if binary {
            Some(b)
        } else {
            None
        },
        Ok(DataEntry::String(b)) => if binary {
            None
        } else {
            Some(b)
        },
        _ => None,
    }
}

/// The holder whose storage is read: the address the guest names, or, when it
/// names none, the running contract.
pub fn storage_address(vm: &Vm, memory: &[u8], offset_address: u32, length_address: u32) -> (r:
    Option<Vec<u8>>)
    ensures
        length_address == 0 ==> (r matches Some(a) && a@ == vm.spec_top().contract_id),
        length_address != 0 ==> match region(memory@, offset_address, length_address) {
            Some(b) => r matches Some(a) && a@ == b,
            None => r is None,
        },
{
    if length_address != 0 {
        read_memory(memory, offset_address, length_address)
    } else {
        Some(vm.top_frame().contract_id())
    }
}

/// Whether the guest names an address or a key outside its memory.
pub open spec fn storage_args_out_of_range(
    memory: Seq<u8>,
    offset_address: u32,
    length_address: u32,
    offset_key: u32,
    length_key: u32,
) -> bool {
    (length_address != 0 && region(memory, offset_address, length_address) is None) || region(
        memory,
        offset_key,
        length_key,
    ) is None
}

/// The stored entry under a key of guest memory, from the node.
fn fetch<N: Node>(
    vm: &Vm,
    node: &N,
    memory: &[u8],
    offset_address: u32,
    length_address: u32,
    offset_key: u32,
    length_key: u32,
) -> (r: core::result::Result<Vec<u8>, i32>)
    ensures
        r matches Err(code) ==> code != 0,
        storage_args_out_of_range(memory@, offset_address, length_address, offset_key, length_key)
            ==> r == Err::<Vec<u8>, i32>(memory_error_code()),
{
    let address = match storage_address(vm, memory, offset_address, length_address) {
        Some(a) => a,
        None => return Err(102),
    };
    let key = match read_memory(memory, offset_key, length_key) {
        Some(k) => k,
        None => return Err(102),
    };
    match node.get_storage(address.as_slice(), key.as_slice()) {
        Ok(bytes) => Ok(bytes),
        Err(e) => Err(e.as_i32()),
    }
}

pub fn get_storage_int<N: Node>(
    vm: &Vm,
    node: &N,
    memory: &[u8],
    offset_address: u32,
    length_address: u32,
    offset_key: u32,
    length_key: u32,
) -> (r: (i32, i64))
    ensures
        storage_args_out_of_range(memory@, offset_address, length_address, offset_key, length_key)
            ==> r == (memory_error_code(), 0i64),
        r.0 != 0 ==> r.1 == 0,
{
    match fetch(vm, node, memory, offset_address, length_address, offset_key, length_key) {
        Ok(bytes) => storage_int(bytes.as_slice()),
        Err(code) => (code, 0),
    }
}

pub fn get_storage_bool<N: Node>(
    vm: &Vm,
    node: &N,
    memory: &[u8],
    offset_address: u32,
    length_address: u32,
    offset_key: u32,
    length_key: u32,
) -> (r: (i32, i32))
    ensures
        storage_args_out_of_range(memory@, offset_address, length_address, offset_key, length_key)
            ==> r == (memory_error_code(), 0i32),
        r.0 != 0 ==> r.1 == 0,
{
    match fetch(vm, node, memory, offset_address, length_address, offset_key, length_key) {
        Ok(bytes) => storage_bool(bytes.as_slice()),
        Err(code) => (code, 0),
    }
}

/// Hands the guest a stored byte string, binary when `binary` holds, else text.
pub fn get_storage_bytes<N: Node>(
    ctx: &mut Runtime,
    vm: &Vm,
    node: &N,
    memory: &mut [u8],
    offset_address: u32,
    length_address: u32,
    offset_key: u32,
    length_key: u32,
    binary: bool,
) -> (r: (i32, i32, i32))
    requires
        old(ctx).wf(),
    ensures
        final(ctx).wf(),
        storage_args_out_of_range(old(memory)@, offset_address, length_address, offset_key, length_key)
            ==> r == (memory_error_code(), 0i32, 0i32) && *final(ctx) == *old(ctx),
{
    let bytes = match fetch(vm, node, memory, offset_address, length_address, offset_key, length_key) {
        Ok(bytes) => bytes,
        Err(code) => return (code, 0, 0),
    };
    match storage_bytes(bytes.as_slice(), binary) {
        Some(value) => ctx.write_memory(memory, value.as_slice()),
        None => (110, 0, 0),
    }
}

/// Stores `value` under a key of guest memory for the running contract.
pub fn set_storage<N: Node>(
    vm: &Vm,
    node: &N,
    memory: &[u8],
    offset_key: u32,
    length_key: u32,
    value: DataEntry,
) -> (r: i32)
    ensures
        region(memory@, offset_key, length_key) is None ==> r == memory_error_code(),
{
    let key = match read_memory(memory, offset_key, length_key) {
        Some(k) => k,
        None => return 102,
    };
    let entry = value.serialize(Some(key.as_slice()));
    let contract_id = vm.top_frame().contract_id();
    match node.set_storage(contract_id.as_slice(), entry.as_slice()) {
        Ok(()) => 0,
        Err(e) => e.as_i32(),
    }
}

pub fn get_storage_binary<N: Node>(
    ctx: &mut Runtime,
    vm: &Vm,
    node: &N,
    memory: &mut [u8],
    offset_address: u32,
    length_address: u32,
    offset_key: u32,
    length_key: u32,
) -> (r: (i32, i32, i32))
    requires
        old(ctx).wf(),
    ensures
        final(ctx).wf(),
        storage_args_out_of_range(old(memory)@, offset_address, length_address, offset_key, length_key)
            ==> r == (memory_error_code(), 0i32, 0i32) && *final(ctx) == *old(ctx),
{
    get_storage_bytes(
        ctx,
        vm,
        node,
        memory,
        offset_address,
        length_address,
        offset_key,
        length_key,
        true,
    )
}

pub fn get_storage_string<N: Node>(
    ctx: &mut Runtime,
    vm: &Vm,
    node: &N,
    memory: &mut [u8],
    offset_address: u32,
    length_address: u32,
    offset_key: u32,
    length_key: u32,
) -> (r: (i32, i32, i32))
    requires
        old(ctx).wf(),
    ensures
        final(ctx).wf(),
        storage_args_out_of_range(old(memory)@, offset_address, length_address, offset_key, length_key)
            ==> r == (memory_error_code(), 0i32, 0i32) && *final(ctx) == *old(ctx),
{
    get_storage_bytes(
        ctx,
        vm,
        node,
        memory,
        offset_address,
        length_address,
        offset_key,
        length_key,
        false,
    )
}

pub fn set_storage_int<N: Node>(
    vm: &Vm,
    node: &N,
    memory: &[u8],
    offset_key: u32,
    length_key: u32,
    value: i64,
) -> (r: i32)
    ensures
        region(memory@, offset_key, length_key) is None ==> r == memory_error_code(),
{
    set_storage(vm, node, memory, offset_key, length_key, DataEntry::Integer(value))
}

pub fn set_storage_bool<N: Node>(
    vm: &Vm,
    node: &N,
    memory: &[u8],
    offset_key: u32,
    length_key: u32,
    value: i32,
) -> (r: i32)
    ensures
        region(memory@, offset_key, length_key) is None ==> r == memory_error_code(),
{
    set_storage(vm, node, memory, offset_key, length_key, DataEntry::Boolean(value))
}

/// Stores a byte string of guest memory, binary when `binary` holds, else text.
pub fn set_storage_bytes<N: Node>(
    vm: &Vm,
    node: &N,
    memory: &[u8],
    offset_key: u32,
    length_key: u32,
    offset_value: u32,
    length_value: u32,
    binary: bool,
) -> (r: i32)
    ensures
        region(memory@, offset_key, length_key) is None || region(
            memory@,
            offset_value,
            length_value,
        ) is None ==> r == memory_error_code(),
{
    let value = match read_memory(memory, offset_value, length_value) {
        Some(b) => b,
        None => return 102,
    };
    let entry = if binary {
        DataEntry::Binary(value)
    } else {
        DataEntry::String(value)
    };
    set_storage(vm, node, memory, offset_key, length_key, entry)
}

pub fn set_storage_binary<N: Node>(
    vm: &Vm,
    node: &N,
    memory: &[u8],
    offset_key: u32,
    length_key: u32,
    offset_value: u32,
    length_value: u32,
) -> (r: i32)
    ensures
        region(memory@, offset_key, length_key) is None || region(
            memory@,
            offset_value,
            length_value,
        ) is None ==> r == memory_error_code(),
{
    set_storage_bytes(vm, node, memory, offset_key, length_key, offset_value, length_value, true)
}

pub fn set_storage_string<N: Node>(
    vm: &Vm,
    node: &N,
    memory: &[u8],
    offset_key: u32,
    length_key: u32,
    offset_value: u32,
    length_value: u32,
) -> (r: i32)
    ensures
        region(memory@, offset_key, length_key) is None || region(
            memory@,
            offset_value,
            length_value,
        ) is None ==> r == memory_error_code(),
{
    set_storage_bytes(vm, node, memory, offset_key, length_key, offset_value, length_value, false)
}

} // verus!
