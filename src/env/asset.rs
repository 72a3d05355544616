//! Host functions on assets and leases: arguments are read from guest memory
//! and checked, then handed to the node.
use crate::env::crypto::write_answer;
use crate::env::{memory_error_code, read_memory, region};
use crate::error::{Error, Result, RuntimeError};
use crate::node::Node;
use crate::runtime::asset_holder::{AddressVersion, AssetHolder, Type};
use crate::runtime::Runtime;
use crate::vm::Vm;
use vstd::prelude::*;

verus! {

/// Whether the guest's holder kind and address version codes are known.
pub open spec fn holder_codes_valid(type_: u32, version: u32) -> bool {
    type_ <= 1 && (version == 1 || version == 2)
}

/// The status an unknown holder kind or address version gives.
pub open spec fn holder_code_error(type_: u32) -> i32 {
    if type_ > 1 {
        306
    } else {
        307
    }
}

/// The bytes of an asset holder, with the node's chain id for aliases. Unknown
/// codes fail before the node is asked.
pub fn holder<N: Node>(node: &N, type_: u32, version: u32, bytes: Vec<u8>) -> (r: Result<Vec<u8>>)
    ensures
        !holder_codes_valid(type_, version) ==> (r matches Err(e) && e.code() == holder_code_error(
            type_,
        )),
{
    let t = Type::try_from(type_)?;
    let v = AddressVersion::try_from(version)?;
    let chain_id = node.get_chain_id()?;
    Ok(AssetHolder::from_bytes(t, v, #[verifier::truncate] (chain_id as u8), bytes).as_bytes())
}

/// The balance of an asset held by the holder the guest names, or by the
/// running contract when it names none: `(0, balance)` or an error status.
pub fn get_balance<N: Node>(
    vm: &Vm,
    node: &N,
    memory: &[u8],
    offset_asset_id: u32,
    length_asset_id: u32,
    offset_holder: u32,
    length_holder: u32,
    type_: u32,
    version: u32,
) -> (r: (i32, i64))
    ensures
        region(memory@, offset_asset_id, length_asset_id) is None ==> r == (
            memory_error_code(),
            0i64,
        ),
        region(memory@, offset_asset_id, length_asset_id) is Some && length_holder != 0 && region(
            memory@,
            offset_holder,
            length_holder,
        ) is Some && !holder_codes_valid(type_, version) ==> r == (holder_code_error(type_), 0i64),
{
    let asset_id = match read_memory(memory, offset_asset_id, length_asset_id) {
        Some(b) => b,
        None => return (102, 0),
    };
    let (kind, bytes) = if length_holder != 0 {
        match read_memory(memory, offset_holder, length_holder) {
            Some(b) => (type_, b),
            None => return (102, 0),
        }
    } else {
        (1u32, vm.top_frame().contract_id())
    };
    let asset_holder = match holder(node, kind, version, bytes) {
        Ok(b) => b,
        Err(e) => return (e.as_i32(), 0),
    };
    match node.get_balance(asset_id.as_slice(), asset_holder.as_slice()) {
        Ok(balance) => (0, balance),
        Err(e) => (e.as_i32(), 0),
    }
}

/// Transfers `amount` of an asset from the running contract to the recipient
/// the guest names: `0` or an error status.
pub fn transfer<N: Node>(
    vm: &Vm,
    node: &N,
    memory: &[u8],
    offset_asset_id: u32,
    length_asset_id: u32,
    offset_recipient: u32,
    length_recipient: u32,
    type_: u32,
    version: u32,
    amount: i64,
) -> (r: i32)
    ensures
        region(memory@, offset_asset_id, length_asset_id) is None || region(
            memory@,
            offset_recipient,
            length_recipient,
        ) is None ==> r == memory_error_code(),
        region(memory@, offset_asset_id, length_asset_id) is Some && region(
            memory@,
            offset_recipient,
            length_recipient,
        ) is Some && !holder_codes_valid(type_, version) ==> r == holder_code_error(type_),
{
    let contract_id = vm.top_frame().contract_id();
    let asset_id = match read_memory(memory, offset_asset_id, length_asset_id) {
        Some(b) => b,
        None => return 102,
    };
    let recipient = match read_memory(memory, offset_recipient, length_recipient) {
        Some(b) => b,
        None => return 102,
    };
    let asset_holder = match holder(node, type_, version, recipient) {
        Ok(b) => b,
        Err(e) => return e.as_i32(),
    };
    match node.transfer(
        contract_id.as_slice(),
        asset_id.as_slice(),
        asset_holder.as_slice(),
        amount,
    ) {
        Ok(()) => 0,
        Err(e) => e.as_i32(),
    }
}

/// Issues a new asset in the running contract's name and hands the guest its
/// identifier.
pub fn issue<N: Node>(
    ctx: &mut Runtime,
    vm: &Vm,
    node: &N,
    memory: &mut [u8],
    offset_name: u32,
    length_name: u32,
    offset_description: u32,
    length_description: u32,
    quantity: i64,
    decimals: i64,
    is_reissuable: i32,
) -> (r: (i32, i32, i32))
    requires
        old(ctx).wf(),
    ensures
        final(ctx).wf(),
        region(old(memory)@, offset_name, length_name) is None || region(
            old(memory)@,
            offset_description,
            length_description,
        ) is None ==> r == (memory_error_code(), 0i32, 0i32) && *final(ctx) == *old(ctx),
{
    let contract_id = vm.top_frame().contract_id();
    let name = match read_memory(memory, offset_name, length_name) {
        Some(b) => b,
        None => return (102, 0, 0),
    };
    let description = match read_memory(memory, offset_description, length_description) {
        Some(b) => b,
        None => return (102, 0, 0),
    };
    let answer = node.issue(
        contract_id.as_slice(),
        name.as_slice(),
        description.as_slice(),
        quantity,
        decimals,
        is_reissuable != 0,
    );
    write_answer(ctx, memory, answer)
}

/// Burns `amount` of an asset of the running contract: `0` or an error status.
pub fn burn<N: Node>(
    vm: &Vm,
    node: &N,
    memory: &[u8],
    offset_asset_id: u32,
    length_asset_id: u32,
    amount: i64,
) -> (r: i32)
    ensures
        region(memory@, offset_asset_id, length_asset_id) is None ==> r == memory_error_code(),
{
    let contract_id = vm.top_frame().contract_id();
    let asset_id = match read_memory(memory, offset_asset_id, length_asset_id) {
        Some(b) => b,
        None => return 102,
    };
    match node.burn(contract_id.as_slice(), asset_id.as_slice(), amount) {
        Ok(()) => 0,
        Err(e) => e.as_i32(),
    }
}

/// Reissues `amount` of an asset of the running contract: `0` or an error status.
pub fn reissue<N: Node>(
    vm: &Vm,
    node: &N,
    memory: &[u8],
    offset_asset_id: u32,
    length_asset_id: u32,
    amount: i64,
    is_reissuable: i32,
) -> (r: i32)
    ensures
        region(memory@, offset_asset_id, length_asset_id) is None ==> r == memory_error_code(),
{
    let contract_id = vm.top_frame().contract_id();
    let asset_id = match read_memory(memory, offset_asset_id, length_asset_id) {
        Some(b) => b,
        None => return 102,
    };
    match node.reissue(contract_id.as_slice(), asset_id.as_slice(), amount, is_reissuable != 0) {
        Ok(()) => 0,
        Err(e) => e.as_i32(),
    }
}

/// Leases `amount` from the running contract to an account the guest names by
/// address (version 1) or alias (version 2), and hands the guest the lease id.
pub fn lease<N: Node>(
    ctx: &mut Runtime,
    vm: &Vm,
    node: &N,
    memory: &mut [u8],
    offset_recipient: u32,
    length_recipient: u32,
    version: u32,
    amount: i64,
) -> (r: (i32, i32, i32))
    requires
        old(ctx).wf(),
    ensures
        final(ctx).wf(),
        region(old(memory)@, offset_recipient, length_recipient) is None ==> r == (
            memory_error_code(),
            0i32,
            0i32,
        ) && *final(ctx) == *old(ctx),
        region(old(memory)@, offset_recipient, length_recipient) is Some && !holder_codes_valid(
            0,
            version,
        ) ==> r == (holder_code_error(0), 0i32, 0i32) && *final(ctx) == *old(ctx),
{
    let contract_id = vm.top_frame().contract_id();
    let recipient = match read_memory(memory, offset_recipient, length_recipient) {
        Some(b) => b,
        None => return (102, 0, 0),
    };
    let asset_holder = match holder(node, 0, version, recipient) {
        Ok(b) => b,
        Err(e) => return (e.as_i32(), 0, 0),
    };
    let answer = node.lease(contract_id.as_slice(), asset_holder.as_slice(), amount);
    write_answer(ctx, memory, answer)
}

/// Cancels a lease of the running contract: `0` or an error status.
pub fn cancel_lease<N: Node>(
    vm: &Vm,
    node: &N,
    memory: &[u8],
    offset_lease_id: u32,
    length_lease_id: u32,
) -> (r: i32)
    ensures
        region(memory@, offset_lease_id, length_lease_id) is None ==> r == memory_error_code(),
{
    let contract_id = vm.top_frame().contract_id();
    let lease_id = match read_memory(memory, offset_lease_id, length_lease_id) {
        Some(b) => b,
        None => return 102,
    };
    match node.cancel_lease(contract_id.as_slice(), lease_id.as_slice()) {
        Ok(()) => 0,
        Err(e) => e.as_i32(),
    }
}

} // verus!
