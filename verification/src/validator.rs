//! The order validator: three independent checks and their aggregation.

use crate::balance::{balance_sufficient, check_balance};
use crate::commitment::{
    commitment_matches, validate_commitment, OrderCommitment, OrderCommitmentView,
};
use crate::hash::{balance_digest, hashable, sha256};
use crate::nullifier::{check_nullifier, nullifier_unused, NullifierSet};
use crate::outcome::ValidationResult;
use crate::outputs::{PublicOutputs, PublicOutputsView};
use vstd::bytes::spec_u64_to_le_bytes;
use vstd::prelude::*;

verus! {

/// What validating an order makes public.
///
/// The declared commitment and nullifier pass through unchanged. The balance
/// shows only as its digest and in the flag that says whether it covers the
/// margin; the payload, the margin and the set of used nullifiers show only
/// in the flags.
pub open spec fn expected_outputs(
    commitment: OrderCommitmentView,
    payload: Seq<u8>,
    balance: u64,
    margin: u64,
    used: Set<Seq<u8>>,
) -> PublicOutputsView {
    PublicOutputsView {
        commitment: commitment.commitment,
        nullifier: commitment.nullifier,
        balance_hash: balance_digest(balance),
        result: ValidationResult::of_checks(
            commitment_matches(payload, commitment.commitment),
            balance_sufficient(balance, margin),
            nullifier_unused(commitment.nullifier, used),
        ),
    }
}

/// Validates one order against its private witnesses.
///
/// All three checks run whatever the others give, and a failed check is
/// reported in the flags, never as an error.
pub fn validate_order(
    commitment: &OrderCommitment,
    payload: &[u8],
    balance: u64,
    margin: u64,
    used: &NullifierSet,
) -> (outputs: PublicOutputs)
    ensures
        outputs@ == expected_outputs(commitment@, payload@, balance, margin, used@),
        outputs.result.consistent(),
{
    let commitment_valid = validate_commitment(payload, &commitment.commitment);
    let (balance_sufficient, balance_hash) = check_balance(balance, margin);
    let nullifier_unused = check_nullifier(&commitment.nullifier, used);
    let result = ValidationResult::aggregate(
        commitment_valid,
        balance_sufficient,
        nullifier_unused,
    );
    PublicOutputs {
        commitment: commitment.commitment,
        nullifier: commitment.nullifier,
        balance_hash,
        result,
    }
}

/// The invariants of every execution, spelled out: each flag says what its
/// check decides, the order is valid exactly when all three checks pass, and
/// the published digest is that of the balance.
pub proof fn lemma_outputs_meet_invariants(
    commitment: OrderCommitmentView,
    payload: Seq<u8>,
    balance: u64,
    margin: u64,
    used: Set<Seq<u8>>,
)
    ensures
        ({
            let outputs = expected_outputs(commitment, payload, balance, margin, used);
            &&& outputs.result.commitment_valid == (hashable(payload) && sha256(payload)
                == commitment.commitment)
            &&& outputs.result.balance_sufficient == (balance >= margin)
            &&& outputs.result.nullifier_unused == !used.contains(commitment.nullifier)
            &&& outputs.result.is_valid == (outputs.result.commitment_valid
                && outputs.result.balance_sufficient && outputs.result.nullifier_unused)
            &&& outputs.balance_hash == sha256(spec_u64_to_le_bytes(balance))
            &&& outputs.commitment == commitment.commitment
            &&& outputs.nullifier == commitment.nullifier
        }),
{
}

/// Validation is deterministic: two runs on the same inputs give the same
/// digests and the same flags.
pub proof fn lemma_validation_is_deterministic(
    commitment: OrderCommitmentView,
    payload: Seq<u8>,
    balance: u64,
    margin: u64,
    used: Set<Seq<u8>>,
    first: PublicOutputs,
    second: PublicOutputs,
)
    requires
        first@ == expected_outputs(commitment, payload, balance, margin, used),
        second@ == expected_outputs(commitment, payload, balance, margin, used),
    ensures
        first == second,
{
    assert(first.commitment =~= second.commitment);
    assert(first.nullifier =~= second.nullifier);
    assert(first.balance_hash =~= second.balance_hash);
}

/// The balance reaches the public outputs through its digest and through
/// the flag that compares it with the margin, and in no other way: two
/// balances that agree in both give the same outputs.
pub proof fn lemma_balance_shows_only_in_digest_and_flag(
    commitment: OrderCommitmentView,
    payload: Seq<u8>,
    first_balance: u64,
    second_balance: u64,
    margin: u64,
    used: Set<Seq<u8>>,
)
    requires
        balance_digest(first_balance) == balance_digest(second_balance),
        balance_sufficient(first_balance, margin) == balance_sufficient(second_balance, margin),
    ensures
        expected_outputs(commitment, payload, first_balance, margin, used) == expected_outputs(
            commitment,
            payload,
            second_balance,
            margin,
            used,
        ),
{
}

} // verus!
