//! The bundle of public outputs and its byte layout.

use crate::outcome::ValidationResult;
use vstd::prelude::*;

verus! {

/// Number of bytes that a bundle takes when it is committed.
pub const OUTPUT_LEN: usize = 100;

/// What one validation makes public, in the order in which it is committed:
/// the commitment, the nullifier, the digest of the balance, and the flags.
#[derive(Clone, Copy, Debug, PartialEq, Eq)]
pub struct PublicOutputs {
    /// The commitment that the order declared.
    pub commitment: [u8; 32],
    /// The nullifier that the order declared.
    pub nullifier: [u8; 32],
    /// The digest computed from the private balance.
    pub balance_hash: [u8; 32],
    /// The four flags.
    pub result: ValidationResult,
}

/// A [`PublicOutputs`] with its byte arrays as byte strings.
pub ghost struct PublicOutputsView {
    pub commitment: Seq<u8>,
    pub nullifier: Seq<u8>,
    pub balance_hash: Seq<u8>,
    pub result: ValidationResult,
}

impl View for PublicOutputs {
    type V = PublicOutputsView;

    open spec fn view(&self) -> PublicOutputsView {
        PublicOutputsView {
            commitment: self.commitment@,
            nullifier: self.nullifier@,
            balance_hash: self.balance_hash@,
            result: self.result,
        }
    }
}

/// The byte that stands for a flag: one for `true`, zero for `false`.
pub open spec fn flag_byte(flag: bool) -> u8 {
    if flag {
        1
    } else {
        0
    }
}

/// The four flags as four bytes, `is_valid` first.
pub open spec fn encode_result(result: ValidationResult) -> Seq<u8> {
    seq![
        flag_byte(result.is_valid),
        flag_byte(result.commitment_valid),
        flag_byte(result.balance_sufficient),
        flag_byte(result.nullifier_unused),
    ]
}

/// The committed form of a bundle: its four parts one after the other, in
/// their fixed order and with nothing between them.
pub open spec fn encode_outputs(outputs: PublicOutputsView) -> Seq<u8> {
    outputs.commitment + outputs.nullifier + outputs.balance_hash + encode_result(outputs.result)
}

/// Appends `bytes` to `out`.
fn append_bytes(out: &mut Vec<u8>, bytes: &[u8])
    ensures
        final(out)@ == old(out)@ + bytes@,
{
    let mut i: usize = 0;
    while i < bytes.len()
        invariant
            i <= bytes.len(),
            out@ == old(out)@ + bytes@.subrange(0, i as int),
        decreases bytes.len() - i,
    {
        out.push(bytes[i]);
        i += 1;
    }
    assert(bytes@.subrange(0, i as int) =~= bytes@);
}

/// The executable form of [`flag_byte`].
fn flag_to_byte(flag: bool) -> (byte: u8)
    ensures
        byte == flag_byte(flag),
{
    if flag {
        1
    } else {
        0
    }
}

impl ValidationResult {
    /// Appends the four flags to `out`, `is_valid` first.
    pub fn commit(&self, out: &mut Vec<u8>)
        ensures
            final(out)@ == old(out)@ + encode_result(*self),
    {
        out.push(flag_to_byte(self.is_valid));
        out.push(flag_to_byte(self.commitment_valid));
        out.push(flag_to_byte(self.balance_sufficient));
        out.push(flag_to_byte(self.nullifier_unused));
    }
}

impl PublicOutputs {
    /// Appends the whole bundle to `out`: what `out` held stays in front, and
    /// the four parts follow in their fixed order.
    pub fn commit(&self, out: &mut Vec<u8>)
        ensures
            final(out)@ == old(out)@ + encode_outputs(self@),
    {
        append_bytes(out, self.commitment.as_slice());
        append_bytes(out, self.nullifier.as_slice());
        append_bytes(out, self.balance_hash.as_slice());
        self.result.commit(out);
    }

    /// The bundle as the bytes that are committed for it.
    pub fn to_bytes(&self) -> (bytes: Vec<u8>)
        ensures
            bytes@ == encode_outputs(self@),
    {
        let mut bytes: Vec<u8> = Vec::new();
        self.commit(&mut bytes);
        bytes
    }
}

/// Every bundle is committed as exactly [`OUTPUT_LEN`] bytes, each part at
/// its fixed place.
pub proof fn lemma_output_layout(outputs: PublicOutputs)
    ensures
        encode_outputs(outputs@).len() == OUTPUT_LEN,
        encode_outputs(outputs@).subrange(0, 32) == outputs.commitment@,
        encode_outputs(outputs@).subrange(32, 64) == outputs.nullifier@,
        encode_outputs(outputs@).subrange(64, 96) == outputs.balance_hash@,
        encode_outputs(outputs@).subrange(96, 100) == encode_result(outputs.result),
{
}

} // verus!
