//! One execution of the validator, from the bytes of its inputs to the bytes
//! of its public outputs.

use crate::outputs::{encode_outputs, OUTPUT_LEN};
use crate::validator::{expected_outputs, validate_order};
use crate::wire::{
    decode_commitment, decode_nullifier_set, decode_payload, decode_u64, decoded,
    encoded_nullifiers,
    spec_decode_commitment, spec_decode_nullifier_set, spec_decode_payload, spec_decode_u64,
    MalformedInput, COMMITMENT_LEN,
};
use vstd::prelude::*;

verus! {

/// Whether each of the five inputs has its expected shape.
pub open spec fn inputs_well_formed(
    commitment: Seq<u8>,
    payload: Seq<u8>,
    balance: Seq<u8>,
    margin: Seq<u8>,
    nullifiers: Seq<u8>,
) -> bool {
    &&& spec_decode_commitment(commitment) is Some
    &&& spec_decode_payload(payload) is Some
    &&& spec_decode_u64(balance) is Some
    &&& spec_decode_u64(margin) is Some
    &&& spec_decode_nullifier_set(nullifiers) is Some
}

/// The bytes that an execution commits: those of the bundle that validating
/// the decoded inputs gives, or nothing at all where an input is malformed.
pub open spec fn spec_execute(
    commitment: Seq<u8>,
    payload: Seq<u8>,
    balance: Seq<u8>,
    margin: Seq<u8>,
    nullifiers: Seq<u8>,
) -> Option<Seq<u8>> {
    if inputs_well_formed(commitment, payload, balance, margin, nullifiers) {
        Some(
            encode_outputs(
                expected_outputs(
                    spec_decode_commitment(commitment)->0,
                    spec_decode_payload(payload)->0,
                    spec_decode_u64(balance)->0,
                    spec_decode_u64(margin)->0,
                    spec_decode_nullifier_set(nullifiers)->0,
                ),
            ),
        )
    } else {
        None
    }
}

/// Runs the validator once.
///
/// The inputs are decoded in their order; the first that is malformed ends
/// the execution with the error, and then no output exists, not even in
/// part. Otherwise the three checks run and the whole bundle is returned in
/// its committed form. That an order fails a check is no error.
pub fn execute(
    commitment: &[u8],
    payload: &[u8],
    balance: &[u8],
    margin: &[u8],
    nullifiers: &[u8],
) -> (out: Result<Vec<u8>, MalformedInput>)
    ensures
        decoded(out) == spec_execute(commitment@, payload@, balance@, margin@, nullifiers@),
        out is Ok <==> inputs_well_formed(commitment@, payload@, balance@, margin@, nullifiers@),
        out matches Ok(bytes) ==> bytes@.len() == OUTPUT_LEN,
{
    let commitment = match decode_commitment(commitment) {
        Ok(value) => value,
        Err(error) => { return Err(error); },
    };
    let payload = match decode_payload(payload) {
        Ok(value) => value,
        Err(error) => { return Err(error); },
    };
    let balance = match decode_u64(balance) {
        Ok(value) => value,
        Err(error) => { return Err(error); },
    };
    let margin = match decode_u64(margin) {
        Ok(value) => value,
        Err(error) => { return Err(error); },
    };
    let used = match decode_nullifier_set(nullifiers) {
        Ok(value) => value,
        Err(error) => { return Err(error); },
    };
    let outputs = validate_order(&commitment, payload.as_slice(), balance, margin, &used);
    Ok(outputs.to_bytes())
}

/// Execution is deterministic: two runs on the same inputs end alike, and
/// where they succeed they commit the same bytes.
pub proof fn lemma_execution_is_deterministic(
    commitment: Seq<u8>,
    payload: Seq<u8>,
    balance: Seq<u8>,
    margin: Seq<u8>,
    nullifiers: Seq<u8>,
    first: Result<Vec<u8>, MalformedInput>,
    second: Result<Vec<u8>, MalformedInput>,
)
    requires
        decoded(first) == spec_execute(commitment, payload, balance, margin, nullifiers),
        decoded(second) == spec_execute(commitment, payload, balance, margin, nullifiers),
    ensures
        first is Ok <==> second is Ok,
        first is Ok ==> first->Ok_0@ == second->Ok_0@,
{
}

/// A commitment that was cut short ends the execution without any output,
/// whatever the other inputs hold.
pub proof fn lemma_truncated_commitment_aborts(
    commitment: Seq<u8>,
    payload: Seq<u8>,
    balance: Seq<u8>,
    margin: Seq<u8>,
    nullifiers: Seq<u8>,
)
    requires
        commitment.len() < COMMITMENT_LEN,
    ensures
        spec_execute(commitment, payload, balance, margin, nullifiers) is None,
{
}

/// Only the members of the nullifier set matter: two encodings that hold
/// the same values, in whatever order and however often, lead to the same
/// end.
pub proof fn lemma_nullifier_order_is_irrelevant(
    commitment: Seq<u8>,
    payload: Seq<u8>,
    balance: Seq<u8>,
    margin: Seq<u8>,
    first: Seq<u8>,
    second: Seq<u8>,
)
    requires
        spec_decode_nullifier_set(first) is Some,
        spec_decode_nullifier_set(second) is Some,
        forall|value: Seq<u8>|
            encoded_nullifiers(first).contains(value) <==> encoded_nullifiers(second).contains(
                value,
            ),
    ensures
        spec_execute(commitment, payload, balance, margin, first) == spec_execute(
            commitment,
            payload,
            balance,
            margin,
            second,
        ),
{
    assert(encoded_nullifiers(first).to_set() =~= encoded_nullifiers(second).to_set());
}

} // verus!
