//! The host functions' logic: reading guest memory, writing results back
//! through the runtime bridge, and mapping outcomes to status codes.
pub mod asset;
pub mod call_contract;
pub mod converts;
pub mod crypto;
pub mod memory;
pub mod storage;
pub mod tx;
pub mod utils;

use crate::error::{Error, Result};
use crate::runtime::asset_holder::{holder_prefix, AddressVersion, AssetHolder, Type};
use vstd::prelude::*;

verus! {

/// A field of a block or a transaction: named by the engine, or by the guest
/// as a region of its memory.
pub enum Field {
    String(String),
    Binary(u32, u32),
}

/// The status a host function returns when the guest names bytes outside its
/// memory: `MemoryError`.
pub open spec fn memory_error_code() -> i32 {
    102
}

/// The bytes the guest names by `offset` and `length`, when they lie in `memory`.
pub open spec fn region(memory: Seq<u8>, offset: u32, length: u32) -> Option<Seq<u8>> {
    if offset + length <= memory.len() {
        Some(memory.subrange(offset as int, offset + length))
    } else {
        None
    }
}

/// Copies the region the guest names, when it lies in memory.
pub fn read_memory(memory: &[u8], offset: u32, length: u32) -> (r: Option<Vec<u8>>)
    ensures
        region(memory@, offset, length) matches Some(b) ==> (r matches Some(v) && v@ == b),
        region(memory@, offset, length) is None ==> r is None,
{
    let start = offset as usize;
    let n = length as usize;
    let size = memory.len();
    if start > size || n > size - start {
        return None;
    }
    let mut out: Vec<u8> = Vec::new();
    let mut i: usize = 0;
    while i < n
        invariant
            size == memory@.len(),
            start + n <= size,
            i <= n,
            out@ == memory@.subrange(start as int, start + i),
        decreases n - i,
    {
        out.push(memory[start + i]);
        i = i + 1;
        assert(out@ =~= memory@.subrange(start as int, start + i));
    }
    Some(out)
}

/// The bytes of an asset holder, built from the guest's type and version codes
/// and the node's chain id.
pub fn get_asset_holder(type_: u32, version: u32, chain_id: u8, bytes: Vec<u8>) -> (r: Result<
    Vec<u8>,
>)
    ensures
        type_ > 1 ==> r == Err::<Vec<u8>, Error>(
            Error::Runtime(crate::error::RuntimeError::AssetHolderTypeNotFound),
        ),
        type_ <= 1 && version != 1 && version != 2 ==> r == Err::<Vec<u8>, Error>(
            Error::Runtime(crate::error::RuntimeError::AddressVersionNotFound),
        ),
        type_ <= 1 && (version == 1 || version == 2) ==> (r matches Ok(v) && v@ == holder_prefix(
            if type_ == 0 {
                Type::Account
            } else {
                Type::Contract
            },
            if version == 1 {
                AddressVersion::Address
            } else {
                AddressVersion::Alias
            },
            chain_id,
        ) + bytes@),
{
    let t = Type::try_from(type_)?;
    let v = AddressVersion::try_from(version)?;
    Ok(AssetHolder::from_bytes(t, v, chain_id, bytes).as_bytes())
}

} // verus!
