//! The payments a guest attaches, one host call each, to its next contract call.
use crate::runtime::utils::{be_bytes, copy_bytes, extend_bytes, write_be};
use vstd::prelude::*;

verus! {

/// The encoding of one payment: a presence byte and the asset identifier (or
/// a single zero byte for the native asset), then the amount as 8 big-endian bytes.
pub open spec fn payment_bytes(asset_id: Seq<u8>, amount: i64) -> Seq<u8> {
    (if asset_id.len() == 0 {
        seq![0u8]
    } else {
        seq![1u8] + asset_id
    }) + be_bytes((amount as u64) as nat, 8)
}

/// The encodings of `ps`, one after the other.
pub open spec fn payments_bytes(ps: Seq<(Seq<u8>, i64)>) -> Seq<u8>
    decreases ps.len(),
{
    if ps.len() == 0 {
        Seq::empty()
    } else {
        payments_bytes(ps.drop_last()) + payment_bytes(ps.last().0, ps.last().1)
    }
}

/// Accumulated payments: pairs of asset identifier and amount.
pub struct Payments(pub Vec<(Vec<u8>, i64)>);

impl View for Payments {
    type V = Seq<(Seq<u8>, i64)>;

    open spec fn view(&self) -> Seq<(Seq<u8>, i64)> {
        self.0@.map_values(|p: (Vec<u8>, i64)| (p.0@, p.1))
    }
}


impl Default for Payments {
    fn default() -> (r: Self)
        ensures
            r@ == Seq::<(Seq<u8>, i64)>::empty(),
    {
        Payments::new()
    }
}

impl Payments {
    /// Initialization of an empty set of function payments.
    pub fn new() -> (r: Self)
        ensures
            r@ == Seq::<(Seq<u8>, i64)>::empty(),
    {
        Payments(Vec::new())
    }

    pub fn is_empty(&self) -> (r: bool)
        ensures
            r == (self@.len() == 0),
    {
        self.0.len() == 0
    }

    /// The encoding of the payments: a 2-byte count, then each payment.
    pub fn as_bytes(&self) -> (r: Vec<u8>)
        ensures
            r@ == be_bytes(self@.len(), 2) + payments_bytes(self@),
    {
        let ghost ps = self@;
        let mut body: Vec<u8> = Vec::new();
        let mut i: usize = 0;
        while i < self.0.len()
            invariant
                i <= self.0@.len(),
                ps == self@,
                body@ == payments_bytes(ps.subrange(0, i as int)),
            decreases self.0@.len() - i,
        {
            let item = &self.0[i];
            let ghost before = body@;
            if item.0.len() == 0 {
                body.push(0u8);
            } else {
                body.push(1u8);
                extend_bytes(&mut body, item.0.as_slice());
            }
            write_be(&mut body, item.1 as u64, 8);
            assert(ps.subrange(0, i + 1).drop_last() =~= ps.subrange(0, i as int));
            assert(body@ =~= before + payment_bytes(ps[i as int].0, ps[i as int].1));
            i = i + 1;
        }
        assert(ps.subrange(0, i as int) =~= ps);
        let mut result: Vec<u8> = Vec::new();
        write_be(&mut result, self.0.len() as u64, 2);
        extend_bytes(&mut result, body.as_slice());
        result
    }

    /// Adding a payment to call the contract function.
    pub fn push(&mut self, asset_id: &[u8], amount: i64)
        ensures
            final(self)@ == old(self)@.push((asset_id@, amount)),
    {
        let id = copy_bytes(asset_id);
        self.0.push((id, amount));
        assert(final(self)@ =~= old(self)@.push((asset_id@, amount)));
    }

    /// Drops every payment.
    pub fn reset(&mut self)
        ensures
            final(self)@ == Seq::<(Seq<u8>, i64)>::empty(),
    {
        self.0 = Vec::new();
        assert(final(self)@ =~= Seq::<(Seq<u8>, i64)>::empty());
    }
}

} // verus!
