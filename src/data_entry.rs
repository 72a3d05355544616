//! The storage-facing form of typed values: entries always carry a key, and
//! argument lists decode into guest memory. The wire format is the one of
//! `runtime::data_entry`.
use crate::error::{Error, Result};
use crate::runtime::data_entry::{
    decoded_args, entry_bytes, parse_entry_at, DataEntry as Entry, DataValue,
};
use crate::runtime::utils::{copy_bytes, deserialize_error};
use vstd::prelude::*;

verus! {

/// A typed value stored under a key.
#[derive(Debug, PartialEq, Eq, Clone)]
pub enum DataEntry {
    Integer(i64),
    Boolean(i32),
    Binary(Vec<u8>),
    String(Vec<u8>),
}

impl View for DataEntry {
    type V = DataValue;

    open spec fn view(&self) -> DataValue {
        match self {
            DataEntry::Integer(v) => DataValue::Integer(*v),
            DataEntry::Boolean(v) => DataValue::Boolean(*v),
            DataEntry::Binary(b) => DataValue::Binary(b@),
            DataEntry::String(b) => DataValue::String(b@),
        }
    }
}

impl DataEntry {
    fn from_entry(entry: Entry) -> (r: Self)
        ensures
            r@ == entry@,
    {
        match entry {
            Entry::Integer(v) => DataEntry::Integer(v),
            Entry::Boolean(v) => DataEntry::Boolean(v),
            Entry::Binary(b) => DataEntry::Binary(b),
            Entry::String(b) => DataEntry::String(b),
        }
    }

    fn to_entry(&self) -> (r: Entry)
        ensures
            r@ == self@,
    {
        match self {
            DataEntry::Integer(v) => Entry::Integer(*v),
            DataEntry::Boolean(v) => Entry::Boolean(*v),
            DataEntry::Binary(b) => Entry::Binary(copy_bytes(b.as_slice())),
            DataEntry::String(b) => Entry::String(copy_bytes(b.as_slice())),
        }
    }

    /// Encodes the value under `key`.
    pub fn serialize(&self, key: &[u8]) -> (r: Vec<u8>)
        ensures
            r@ == entry_bytes(self@, Some(key@)),
    {
        self.to_entry().serialize(Some(key))
    }

    /// Decodes a stored entry, skipping its key.
    pub fn deserialize_storage(input: &[u8]) -> (r: Result<Self>)
        ensures
            match parse_entry_at(input@, 0) {
                Some((_, v, _)) => r matches Ok(e) && e@ == v,
                None => r == Err::<DataEntry, Error>(deserialize_error()),
            },
    {
        let entry = Entry::deserialize(input)?;
        Ok(Self::from_entry(entry))
    }

    /// Decodes an argument list into the textual arguments of a guest call,
    /// copying byte-string payloads into `output` from `*offset_output`.
    pub fn deserialize_args(input: &[u8], output: &mut [u8], offset_output: &mut usize) -> (r:
        Result<Vec<String>>)
        ensures
            decoded_args(
                input@,
                old(output)@,
                *old(offset_output) as int,
                r,
                final(output)@,
                *final(offset_output) as int,
            ),
    {
        Entry::deserialize_params(input, output, offset_output)
    }
}

} // verus!
