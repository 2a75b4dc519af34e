//! The public commitment to an order, and the check that a payload opens it.

use crate::hash::{digest_eq, hash_data, hashable, sha256, MAX_MESSAGE_LEN};
use vstd::prelude::*;

verus! {

/// The publicly visible claim about an order.
#[derive(Clone, Copy, Debug, PartialEq, Eq)]
pub struct OrderCommitment {
    /// Digest of the private order payload.
    pub commitment: [u8; 32],
    /// Single-use token that ties the order to one submission.
    pub nullifier: [u8; 32],
    /// Declared digest of the account balance.
    pub balance_hash: [u8; 32],
}

/// An [`OrderCommitment`] as three byte strings.
pub ghost struct OrderCommitmentView {
    pub commitment: Seq<u8>,
    pub nullifier: Seq<u8>,
    pub balance_hash: Seq<u8>,
}

impl View for OrderCommitment {
    type V = OrderCommitmentView;

    open spec fn view(&self) -> OrderCommitmentView {
        OrderCommitmentView {
            commitment: self.commitment@,
            nullifier: self.nullifier@,
            balance_hash: self.balance_hash@,
        }
    }
}

/// Whether `payload` opens `commitment`: its digest is the commitment, byte
/// for byte. A payload too long to have a digest opens no commitment.
pub open spec fn commitment_matches(payload: Seq<u8>, commitment: Seq<u8>) -> bool {
    hashable(payload) && sha256(payload) == commitment
}

/// Checks that the order payload hashes to the declared commitment.
pub fn validate_commitment(order_data: &[u8], commitment: &[u8; 32]) -> (valid: bool)
    ensures
        valid == commitment_matches(order_data@, commitment@),
{
    if order_data.len() as u64 > MAX_MESSAGE_LEN {
        return false;
    }
    let computed = hash_data(order_data);
    digest_eq(&computed, commitment)
}

/// For every payload that has a digest, the payload opens the commitment
/// exactly when the digest equals it.
pub proof fn lemma_commitment_valid_iff_digest_equal(payload: Seq<u8>, commitment: Seq<u8>)
    requires
        hashable(payload),
    ensures
        commitment_matches(payload, commitment) == (sha256(payload) == commitment),
{
}

} // verus!
