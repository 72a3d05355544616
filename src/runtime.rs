//! The per-invocation bridge between host functions and a running guest.
pub mod asset_holder;
pub mod data_entry;
pub mod params;
pub mod payment_id;
pub mod payments;
pub mod text;
pub mod utils;

use crate::error::{ExecutableError, RuntimeError};
use params::Params;
use payments::Payments;
use vstd::prelude::*;

verus! {

/// The interpreter's handle on a guest's linear memory.
#[verifier::external_type_specification]
#[verifier::external_body]
pub struct ExMemory(wasmi::Memory);

/// What one invocation's host functions share: the guest's linear memory, the
/// bump cursor for data handed back to the guest, and the arguments and
/// payments gathered for the next nested call.
pub struct Runtime {
    memory: Option<wasmi::Memory>,
    heap_base: i32,
    params: Params,
    payments: Payments,
    writes: Ghost<Seq<(int, int)>>,
}

/// The status, offset and length a host function returns after handing
/// `length` bytes to the guest at `offset`.
pub open spec fn written(offset: int, length: int) -> (i32, i32, i32) {
    (0, offset as i32, length as i32)
}

impl Runtime {
    /// The regions, as offset and length, written so far through `write_memory`.
    pub closed spec fn writes(&self) -> Seq<(int, int)> {
        self.writes@
    }

    /// The arguments gathered for the next nested call.
    pub closed spec fn pending_params(&self) -> Seq<data_entry::DataValue> {
        self.params@
    }

    /// The payments gathered for the next nested call.
    pub closed spec fn pending_payments(&self) -> Seq<(Seq<u8>, i64)> {
        self.payments@
    }

    pub closed spec fn spec_heap_base(&self) -> i32 {
        self.heap_base
    }

    pub closed spec fn has_memory(&self) -> bool {
        self.memory is Some
    }

    /// The cursor is never negative, every region written so far lies below it,
    /// and the regions follow one another without overlap.
    pub closed spec fn wf(&self) -> bool {
        &&& self.params.wf()
        &&& 0 <= self.heap_base
        &&& forall|i: int|
            0 <= i < self.writes@.len() ==> {
                &&& 0 <= (#[trigger] self.writes@[i]).0
                &&& 0 <= self.writes@[i].1
                &&& self.writes@[i].0 + self.writes@[i].1 <= self.heap_base
            }
        &&& forall|i: int, j: int|
            0 <= i < j < self.writes@.len() ==> #[trigger] self.writes@[i].0 + self.writes@[i].1
                <= #[trigger] self.writes@[j].0
    }

    pub fn new() -> (r: Self)
        ensures
            r.wf(),
            !r.has_memory(),
            r.spec_heap_base() == 0,
            r.writes() == Seq::<(int, int)>::empty(),
            r.pending_params() == Seq::<data_entry::DataValue>::empty(),
            r.pending_payments() == Seq::<(Seq<u8>, i64)>::empty(),
    {
        Runtime {
            memory: None,
            heap_base: 0,
            params: Params::new(),
            payments: Payments::new(),
            writes: Ghost(Seq::empty()),
        }
    }

    /// Getting linear memory.
    pub fn memory(&self) -> (r: Option<wasmi::Memory>)
        ensures
            r is Some == self.has_memory(),
    {
        self.memory
    }

    /// Setting linear memory.
    pub fn set_memory(&mut self, memory: wasmi::Memory)
        ensures
            final(self).has_memory(),
            final(self).spec_heap_base() == old(self).spec_heap_base(),
            final(self).writes() == old(self).writes(),
            final(self).pending_params() == old(self).pending_params(),
            final(self).pending_payments() == old(self).pending_payments(),
            old(self).wf() ==> final(self).wf(),
    {
        self.memory = Some(memory);
    }

    /// Getting the heap address from a contract.
    pub fn heap_base(&self) -> (r: i32)
        ensures
            r == self.spec_heap_base(),
    {
        self.heap_base
    }

    /// Moving the heap address of the contract forward.
    pub fn set_heap_base(&mut self, value: i32)
        requires
            old(self).wf(),
            old(self).spec_heap_base() <= value,
        ensures
            final(self).wf(),
            final(self).spec_heap_base() == value,
            final(self).writes() == old(self).writes(),
            final(self).has_memory() == old(self).has_memory(),
            final(self).pending_params() == old(self).pending_params(),
            final(self).pending_payments() == old(self).pending_payments(),
    {
        self.heap_base = value;
    }

    /// Copies a host function's result into guest memory at the cursor and moves
    /// the cursor past it, returning `(0, offset, length)`. A write that would
    /// pass the end of memory changes nothing and reports `MemoryError`.
    pub fn write_memory(&mut self, memory: &mut [u8], result: &[u8]) -> (r: (i32, i32, i32))
        requires
            old(self).wf(),
        ensures
            final(self).wf(),
            final(self).has_memory() == old(self).has_memory(),
            final(self).pending_params() == old(self).pending_params(),
            final(self).pending_payments() == old(self).pending_payments(),
            ({
                let at = old(self).spec_heap_base() as int;
                let n = result@.len() as int;
                if at + n <= old(memory)@.len() && at + n <= i32::MAX {
                    &&& r == written(at, n)
                    &&& final(memory)@ == old(memory)@.subrange(0, at) + result@
                        + old(memory)@.subrange(at + n, old(memory)@.len() as int)
                    &&& final(self).spec_heap_base() == at + n
                    &&& final(self).writes() == old(self).writes().push((at, n))
                } else {
                    &&& r == (102i32, 0i32, 0i32)
                    &&& final(memory)@ == old(memory)@
                    &&& final(self).spec_heap_base() == old(self).spec_heap_base()
                    &&& final(self).writes() == old(self).writes()
                }
            }),
    {
        let start = self.heap_base as usize;
        let length = result.len();
        let size = memory.len();
        if start > size || length > size - start || length > (i32::MAX as usize) - start {
            return (ExecutableError::MemoryError(String::new()).as_i32(), 0, 0);
        }
        let ghost mem = memory@;
        let mut i: usize = 0;
        while i < length
            invariant
                size == memory@.len(),
                start + length <= size,
                length == result@.len(),
                mem.len() == size,
                i <= length,
                memory@ == mem.subrange(0, start as int) + result@.subrange(0, i as int)
                    + mem.subrange(start + i, mem.len() as int),
            decreases length - i,
        {
            memory[start + i] = result[i];
            i = i + 1;
            assert(memory@ =~= mem.subrange(0, start as int) + result@.subrange(0, i as int)
                + mem.subrange(start + i, mem.len() as int));
        }
        assert(result@.subrange(0, i as int) =~= result@);
        self.heap_base = (start + length) as i32;
        self.writes = Ghost(self.writes@.push((start as int, length as int)));
        (0, start as i32, length as i32)
    }

    /// Adds an argument for the next nested call.
    pub fn push_argument(&mut self, value: data_entry::DataEntry)
        requires
            old(self).wf(),
            old(self).pending_params().len() < 0xffff,
        ensures
            final(self).wf(),
            final(self).pending_params() == old(self).pending_params().push(value@),
            final(self).pending_payments() == old(self).pending_payments(),
            final(self).spec_heap_base() == old(self).spec_heap_base(),
            final(self).writes() == old(self).writes(),
            final(self).has_memory() == old(self).has_memory(),
    {
        self.params.push(value);
    }

    /// The number of arguments gathered for the next nested call.
    pub fn params_len(&self) -> (r: usize)
        requires
            self.wf(),
        ensures
            r == self.pending_params().len(),
    {
        self.params.len()
    }

    /// Adds a payment for the next nested call.
    pub fn push_payment(&mut self, asset_id: &[u8], amount: i64)
        requires
            old(self).wf(),
        ensures
            final(self).wf(),
            final(self).pending_payments() == old(self).pending_payments().push((asset_id@, amount)),
            final(self).pending_params() == old(self).pending_params(),
            final(self).spec_heap_base() == old(self).spec_heap_base(),
            final(self).writes() == old(self).writes(),
            final(self).has_memory() == old(self).has_memory(),
    {
        self.payments.push(asset_id, amount);
    }

    /// Hands over the gathered arguments in their list encoding and drops them.
    pub fn take_params(&mut self) -> (r: Vec<u8>)
        requires
            old(self).wf(),
        ensures
            final(self).wf(),
            r@ == utils::be_bytes(old(self).pending_params().len(), 2) + data_entry::entries_bytes(
                old(self).pending_params(),
            ),
            final(self).pending_params() == Seq::<data_entry::DataValue>::empty(),
            final(self).pending_payments() == old(self).pending_payments(),
            final(self).spec_heap_base() == old(self).spec_heap_base(),
            final(self).writes() == old(self).writes(),
            final(self).has_memory() == old(self).has_memory(),
    {
        let bytes = self.params.as_bytes();
        self.params.reset();
        bytes
    }

    /// Hands over the gathered payments in their encoding, if there are any,
    /// and drops them.
    pub fn take_payments(&mut self) -> (r: Option<Vec<u8>>)
        requires
            old(self).wf(),
        ensures
            final(self).wf(),
            old(self).pending_payments().len() == 0 ==> r is None,
            old(self).pending_payments().len() > 0 ==> (r matches Some(b) && b@ == utils::be_bytes(
                old(self).pending_payments().len(),
                2,
            ) + payments::payments_bytes(old(self).pending_payments())),
            final(self).pending_payments() == Seq::<(Seq<u8>, i64)>::empty(),
            final(self).pending_params() == old(self).pending_params(),
            final(self).spec_heap_base() == old(self).spec_heap_base(),
            final(self).writes() == old(self).writes(),
            final(self).has_memory() == old(self).has_memory(),
    {
        if self.payments.is_empty() {
            assert(self.pending_payments() =~= Seq::<(Seq<u8>, i64)>::empty());
            return None;
        }
        let bytes = self.payments.as_bytes();
        self.payments.reset();
        Some(bytes)
    }
}

/// A well-formed runtime's cursor is never negative, and every region written
/// so far ends at or below it.
pub proof fn lemma_wf_heap_base(r: Runtime)
    requires
        r.wf(),
    ensures
        r.spec_heap_base() >= 0,
        forall|i: int|
            0 <= i < r.writes().len() ==> 0 <= #[trigger] r.writes()[i].0 && r.writes()[i].0
                + r.writes()[i].1 <= r.spec_heap_base(),
{
}

/// Each result written through `write_memory` moves the cursor by exactly its
/// length, and the region it lands in lies after every region written before.
pub proof fn lemma_heap_monotone(before: Runtime, after: Runtime, at: int, n: int)
    requires
        before.wf(),
        after.wf(),
        after.writes() == before.writes().push((at, n)),
        at == before.spec_heap_base(),
        after.spec_heap_base() == at + n,
    ensures
        after.spec_heap_base() == before.spec_heap_base() + n,
        forall|i: int|
            0 <= i < before.writes().len() ==> #[trigger] before.writes()[i].0
                + before.writes()[i].1 <= at,
{
    assert forall|i: int| 0 <= i < before.writes().len() implies #[trigger] before.writes()[i].0
        + before.writes()[i].1 <= at by {
        assert(before.writes@[i] == before.writes()[i]);
    }
}

} // verus!
