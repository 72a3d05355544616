//! The arguments a guest gathers, one host call each, before it calls another contract.
use crate::runtime::data_entry::{entries_bytes, entry_bytes, DataEntry, DataValue};
use crate::runtime::utils::{be_bytes, extend_bytes, write_be};
use vstd::prelude::*;

verus! {

/// Accumulated call arguments, kept in their list encoding.
pub struct Params {
    bytes: Vec<u8>,
    count: u16,
    entries: Ghost<Seq<DataValue>>,
}

impl View for Params {
    type V = Seq<DataValue>;

    closed spec fn view(&self) -> Seq<DataValue> {
        self.entries@
    }
}

impl Default for Params {
    fn default() -> (r: Self)
        ensures
            r.wf(),
            r@ == Seq::<DataValue>::empty(),
    {
        Params::new()
    }
}

impl Params {
    /// The encoding is the entries one after the other, and the count is their number.
    pub closed spec fn wf(&self) -> bool {
        &&& self.bytes@ == entries_bytes(self.entries@)
        &&& self.count as nat == self.entries@.len()
    }

    /// Initialization of an empty set of function arguments.
    pub fn new() -> (r: Self)
        ensures
            r.wf(),
            r@ == Seq::<DataValue>::empty(),
    {
        Params { bytes: Vec::new(), count: 0, entries: Ghost(Seq::empty()) }
    }

    /// The list encoding of the arguments: a 2-byte count, then each entry
    /// without a key.
    pub fn as_bytes(&self) -> (r: Vec<u8>)
        requires
            self.wf(),
        ensures
            r@ == be_bytes(self@.len(), 2) + entries_bytes(self@),
    {
        let mut bytes: Vec<u8> = Vec::new();
        write_be(&mut bytes, self.count as u64, 2);
        extend_bytes(&mut bytes, self.bytes.as_slice());
        bytes
    }

    /// Adding an argument to call the contract function.
    pub fn push(&mut self, value: DataEntry)
        requires
            old(self).wf(),
            old(self)@.len() < 0xffff,
        ensures
            final(self).wf(),
            final(self)@ == old(self)@.push(value@),
    {
        let encoded = value.serialize(None);
        extend_bytes(&mut self.bytes, encoded.as_slice());
        self.count = self.count + 1;
        let ghost entries = self.entries@.push(value@);
        assert(entries.drop_last() =~= self.entries@);
        assert(encoded@ == entry_bytes(value@, None));
        self.entries = Ghost(entries);
    }

    /// The number of arguments.
    pub fn len(&self) -> (r: usize)
        requires
            self.wf(),
        ensures
            r == self@.len(),
    {
        self.count as usize
    }

    /// Drops every argument.
    pub fn reset(&mut self)
        ensures
            final(self).wf(),
            final(self)@ == Seq::<DataValue>::empty(),
    {
        self.bytes = Vec::new();
        self.count = 0;
        self.entries = Ghost(Seq::empty());
    }
}

} // verus!
