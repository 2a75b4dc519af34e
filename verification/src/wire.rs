//! The byte form of the five inputs.
//!
//! Each input arrives as one buffer of its own. Integers are eight bytes,
//! least significant byte first; a 32-byte value is its bytes as they are; a
//! record is its fields one after the other; and a sequence is the number of
//! its items, as such an integer, followed by the items. A buffer has to be
//! used up exactly: one that is too short or too long is malformed.

use crate::commitment::{OrderCommitment, OrderCommitmentView};
use crate::nullifier::{digest_views, NullifierSet};
use vstd::bytes::{spec_u64_from_le_bytes, u64_from_le_bytes};
use vstd::prelude::*;
use vstd::slice::{slice_subrange, slice_to_vec};

verus! {

/// The one error of decoding: an input does not have its expected shape.
#[derive(Clone, Copy, Debug, PartialEq, Eq)]
pub struct MalformedInput;

/// Number of bytes of an encoded [`OrderCommitment`].
pub const COMMITMENT_LEN: usize = 96;

/// Number of bytes of an encoded integer, and so of the count in front of a
/// sequence.
pub const INTEGER_LEN: usize = 8;

/// What a decoder returned, as the value it stands for: `None` for the
/// error.
pub open spec fn decoded<T: View>(out: Result<T, MalformedInput>) -> Option<T::V> {
    match out {
        Ok(value) => Some(value@),
        Err(_) => None,
    }
}

/// The commitment that `input` encodes: exactly three 32-byte fields.
pub open spec fn spec_decode_commitment(input: Seq<u8>) -> Option<OrderCommitmentView> {
    if input.len() == COMMITMENT_LEN {
        Some(
            OrderCommitmentView {
                commitment: input.subrange(0, 32),
                nullifier: input.subrange(32, 64),
                balance_hash: input.subrange(64, 96),
            },
        )
    } else {
        None
    }
}

/// The integer that `input` encodes: exactly eight bytes, least significant
/// first.
pub open spec fn spec_decode_u64(input: Seq<u8>) -> Option<u64> {
    if input.len() == INTEGER_LEN {
        Some(spec_u64_from_le_bytes(input))
    } else {
        None
    }
}

/// The number of items that the first eight bytes of `input` announce.
pub open spec fn declared_count(input: Seq<u8>) -> u64
    recommends
        input.len() >= INTEGER_LEN,
{
    spec_u64_from_le_bytes(input.subrange(0, 8))
}

/// The payload that `input` encodes: the announced number of bytes, which
/// are all the bytes behind the count.
pub open spec fn spec_decode_payload(input: Seq<u8>) -> Option<Seq<u8>> {
    if input.len() >= INTEGER_LEN && declared_count(input) == input.len() - INTEGER_LEN {
        Some(input.subrange(8, input.len() as int))
    } else {
        None
    }
}

/// The `index`-th 32-byte item behind the count of `input`.
pub open spec fn nullifier_at(input: Seq<u8>, index: int) -> Seq<u8> {
    input.subrange(8 + 32 * index, 40 + 32 * index)
}

/// The items of an encoded nullifier set, in the order of the encoding.
pub open spec fn encoded_nullifiers(input: Seq<u8>) -> Seq<Seq<u8>> {
    Seq::new(declared_count(input) as nat, |index: int| nullifier_at(input, index))
}

/// The nullifier set that `input` encodes: the announced number of 32-byte
/// items, which are all the bytes behind the count.
pub open spec fn spec_decode_nullifier_set(input: Seq<u8>) -> Option<Set<Seq<u8>>> {
    if input.len() >= INTEGER_LEN && 32 * declared_count(input) == input.len() - INTEGER_LEN {
        Some(encoded_nullifiers(input).to_set())
    } else {
        None
    }
}

/// Copies the 32 bytes of `input` that start at `offset`.
fn read_digest(input: &[u8], offset: usize) -> (digest: [u8; 32])
    requires
        offset + 32 <= input@.len(),
    ensures
        digest@ == input@.subrange(offset as int, offset + 32),
{
    let len = input.len();
    let mut digest = [0u8;32];
    let mut i: usize = 0;
    while i < 32
        invariant
            i <= 32,
            len == input@.len(),
            offset + 32 <= len,
            forall|j: int| 0 <= j < i ==> digest@[j] == input@[offset + j],
        decreases 32 - i,
    {
        digest[i] = input[offset + i];
        i += 1;
    }
    assert(digest@ =~= input@.subrange(offset as int, offset + 32));
    digest
}

/// Decodes the commitment record.
pub fn decode_commitment(input: &[u8]) -> (out: Result<OrderCommitment, MalformedInput>)
    ensures
        decoded(out) == spec_decode_commitment(input@),
{
    if input.len() != COMMITMENT_LEN {
        return Err(MalformedInput);
    }
    Ok(
        OrderCommitment {
            commitment: read_digest(input, 0),
            nullifier: read_digest(input, 32),
            balance_hash: read_digest(input, 64),
        },
    )
}

/// Decodes an unsigned 64-bit integer: the balance, or the required margin.
pub fn decode_u64(input: &[u8]) -> (out: Result<u64, MalformedInput>)
    ensures
        decoded(out) == spec_decode_u64(input@),
{
    if input.len() != INTEGER_LEN {
        return Err(MalformedInput);
    }
    Ok(u64_from_le_bytes(input))
}

/// Decodes the order payload.
pub fn decode_payload(input: &[u8]) -> (out: Result<Vec<u8>, MalformedInput>)
    ensures
        decoded(out) == spec_decode_payload(input@),
{
    let len = input.len();
    if len < INTEGER_LEN {
        return Err(MalformedInput);
    }
    let declared = u64_from_le_bytes(slice_subrange(input, 0, INTEGER_LEN));
    if declared != (len - INTEGER_LEN) as u64 {
        return Err(MalformedInput);
    }
    Ok(slice_to_vec(slice_subrange(input, INTEGER_LEN, len)))
}

/// Decodes the set of used nullifiers. All of it is read before anything is
/// checked against it.
pub fn decode_nullifier_set(input: &[u8]) -> (out: Result<NullifierSet, MalformedInput>)
    ensures
        decoded(out) == spec_decode_nullifier_set(input@),
{
    let len = input.len();
    if len < INTEGER_LEN {
        return Err(MalformedInput);
    }
    let declared = u64_from_le_bytes(slice_subrange(input, 0, INTEGER_LEN));
    let body = len - INTEGER_LEN;
    if body % 32 != 0 || (body / 32) as u64 != declared {
        return Err(MalformedInput);
    }
    let count = body / 32;
    let mut entries: Vec<[u8; 32]> = Vec::new();
    let mut index: usize = 0;
    while index < count
        invariant
            index <= count,
            len == input@.len(),
            8 + 32 * count == len,
            entries@.len() == index,
            forall|j: int| 0 <= j < index ==> (#[trigger] entries@[j])@ == nullifier_at(input@, j),
        decreases count - index,
    {
        let entry = read_digest(input, 8 + 32 * index);
        entries.push(entry);
        index += 1;
    }
    assert(digest_views(entries@) =~= encoded_nullifiers(input@));
    Ok(NullifierSet::from_entries(entries))
}

} // verus!
