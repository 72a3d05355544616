//! The byte form of an account or contract that holds assets.
use crate::error::{Error, Result, RuntimeError};
use crate::runtime::utils::{copy_bytes, extend_bytes};
use vstd::prelude::*;

verus! {

/// The kind of holder.
#[derive(Debug, Clone, Copy, PartialEq, Eq, Structural)]
pub enum Type {
    Account,
    Contract,
}

/// How an account is addressed.
#[derive(Debug, Clone, Copy, PartialEq, Eq, Structural)]
pub enum AddressVersion {
    Address,
    Alias,
}

impl Type {
    /// Decodes the guest's holder kind: 0 is an account, 1 a contract.
    pub fn try_from(type_: u32) -> (r: Result<Type>)
        ensures
            type_ == 0 ==> r == Ok::<Type, Error>(Type::Account),
            type_ == 1 ==> r == Ok::<Type, Error>(Type::Contract),
            type_ > 1 ==> r == Err::<Type, Error>(Error::Runtime(RuntimeError::AssetHolderTypeNotFound)),
    {
        if type_ == 0 {
            Ok(Type::Account)
        } else if type_ == 1 {
            Ok(Type::Contract)
        } else {
            Err(Error::Runtime(RuntimeError::AssetHolderTypeNotFound))
        }
    }
}

impl AddressVersion {
    /// Decodes the guest's address version: 1 is an address, 2 an alias.
    pub fn try_from(version: u32) -> (r: Result<AddressVersion>)
        ensures
            version == 1 ==> r == Ok::<AddressVersion, Error>(AddressVersion::Address),
            version == 2 ==> r == Ok::<AddressVersion, Error>(AddressVersion::Alias),
            version != 1 && version != 2 ==> r == Err::<AddressVersion, Error>(
                Error::Runtime(RuntimeError::AddressVersionNotFound),
            ),
    {
        if version == 1 {
            Ok(AddressVersion::Address)
        } else if version == 2 {
            Ok(AddressVersion::Alias)
        } else {
            Err(Error::Runtime(RuntimeError::AddressVersionNotFound))
        }
    }
}

/// The prefix that tells what kind of holder the bytes name.
pub open spec fn holder_prefix(type_: Type, version: AddressVersion, chain_id: u8) -> Seq<u8> {
    match type_ {
        Type::Account => match version {
            AddressVersion::Address => seq![0u8],
            AddressVersion::Alias => seq![0u8, 2u8, chain_id],
        },
        Type::Contract => seq![1u8],
    }
}

/// A holder of assets in the form the ledger reads.
pub struct AssetHolder(Vec<u8>);

impl View for AssetHolder {
    type V = Seq<u8>;

    closed spec fn view(&self) -> Seq<u8> {
        self.0@
    }
}

impl AssetHolder {
    pub fn from_bytes(type_: Type, version: AddressVersion, chain_id: u8, bytes: Vec<u8>) -> (r:
        Self)
        ensures
            r@ == holder_prefix(type_, version, chain_id) + bytes@,
    {
        let mut result: Vec<u8> = Vec::new();
        match type_ {
            Type::Account => match version {
                AddressVersion::Address => result.push(0u8),
                AddressVersion::Alias => {
                    result.push(0u8);
                    result.push(2u8);
                    result.push(chain_id);
                },
            },
            Type::Contract => result.push(1u8),
        }
        let ghost head = result@;
        assert(head =~= holder_prefix(type_, version, chain_id));
        extend_bytes(&mut result, bytes.as_slice());
        AssetHolder(result)
    }

    pub fn as_bytes(&self) -> (r: Vec<u8>)
        ensures
            r@ == self@,
    {
        copy_bytes(self.0.as_slice())
    }
}

} // verus!
