//! The identifier under which the payments of one contract invocation are registered.
use crate::runtime::utils::{be_bytes, be_value, lemma_be_bytes_len, lemma_be_round_trip_exact, lemma_pow256_values, write_be, copy_bytes};
use vstd::prelude::*;

verus! {

/// The bytes of a payment identifier: the contract identifier, then the nonce
/// as 8 big-endian bytes.
pub open spec fn payment_id_bytes(contract_id: Seq<u8>, nonce: u64) -> Seq<u8> {
    contract_id + be_bytes(nonce as nat, 8)
}

/// A contract identifier paired with the nonce of one of its invocations.
pub struct PaymentId {
    contract_id: Vec<u8>,
    nonce: u64,
}

impl PaymentId {
    pub closed spec fn spec_bytes(&self) -> Seq<u8> {
        payment_id_bytes(self.contract_id@, self.nonce)
    }

    pub fn new(contract_id: Vec<u8>, nonce: u64) -> (r: Self)
        ensures
            r.spec_bytes() == payment_id_bytes(contract_id@, nonce),
    {
        PaymentId { contract_id, nonce }
    }

    pub fn as_bytes(&self) -> (r: Vec<u8>)
        ensures
            r@ == self.spec_bytes(),
    {
        let mut result = copy_bytes(self.contract_id.as_slice());
        write_be(&mut result, self.nonce, 8);
        result
    }
}

/// Distinct nonces give distinct payment identifiers for the same contract.
pub proof fn lemma_payment_id_distinct(contract_id: Seq<u8>, n1: u64, n2: u64)
    requires
        n1 != n2,
    ensures
        payment_id_bytes(contract_id, n1) != payment_id_bytes(contract_id, n2),
{
    let a = payment_id_bytes(contract_id, n1);
    let b = payment_id_bytes(contract_id, n2);
    let len = contract_id.len() as int;
    lemma_be_bytes_len(n1 as nat, 8);
    lemma_be_bytes_len(n2 as nat, 8);
    lemma_pow256_values();
    lemma_be_round_trip_exact(n1 as nat, 8);
    lemma_be_round_trip_exact(n2 as nat, 8);
    assert(a.subrange(len, len + 8) =~= be_bytes(n1 as nat, 8));
    assert(b.subrange(len, len + 8) =~= be_bytes(n2 as nat, 8));
    if a == b {
        assert(be_value(be_bytes(n1 as nat, 8)) == be_value(be_bytes(n2 as nat, 8)));
    }
}

} // verus!
