//! SHA-256 digests of byte strings and of balances.

use sha2::{Digest, Sha256};
use vstd::bytes::{lemma_auto_spec_u64_to_from_le_bytes, spec_u64_to_le_bytes, u64_to_le_bytes};
use vstd::prelude::*;

verus! {

/// Number of bytes in a digest.
pub const DIGEST_LEN: usize = 32;

/// The longest message, in bytes, that SHA-256 is defined for: the length of
/// the message in bits has to fit in 64 bits.
pub const MAX_MESSAGE_LEN: u64 = 0x1fff_ffff_ffff_ffff;

/// The SHA-256 digest of the message `data`, as FIPS 180-4 defines it.
///
/// The verifier knows nothing of this function but that it is one: equal
/// messages have equal digests.
pub uninterp spec fn sha256(data: Seq<u8>) -> Seq<u8>;

/// Whether `data` is short enough to be hashed.
pub open spec fn hashable(data: Seq<u8>) -> bool {
    data.len() <= MAX_MESSAGE_LEN
}

/// Trusted: `sha2::Sha256::digest`, the one-shot form of `Digest::new`,
/// `update` and `finalize`. The contract claims that, on a message within
/// the length that SHA-256 admits, the 32 bytes that come back are the
/// SHA-256 digest of exactly the bytes of `data`.
#[verifier::external_body]
fn sha256_digest(data: &[u8]) -> (digest: [u8; 32])
    requires
        hashable(data@),
    ensures
        digest@ == sha256(data@),
{
    Sha256::digest(data).into()
}

/// Hashes `data` with SHA-256.
pub fn hash_data(data: &[u8]) -> (digest: [u8; 32])
    requires
        hashable(data@),
    ensures
        digest@ == sha256(data@),
{
    sha256_digest(data)
}

/// The public digest of a balance: SHA-256 over its eight bytes, least
/// significant byte first.
pub open spec fn balance_digest(balance: u64) -> Seq<u8> {
    sha256(spec_u64_to_le_bytes(balance))
}

/// Hashes a balance so that it can be published without revealing it.
pub fn hash_balance(balance: u64) -> (digest: [u8; 32])
    ensures
        digest@ == balance_digest(balance),
{
    let bytes = u64_to_le_bytes(balance);
    proof {
        lemma_auto_spec_u64_to_from_le_bytes();
    }
    sha256_digest(bytes.as_slice())
}

/// Two different balances are hashed as two different messages, so their
/// digests can agree only where SHA-256 itself collides.
pub proof fn lemma_balance_encoding_is_injective(first: u64, second: u64)
    requires
        first != second,
    ensures
        spec_u64_to_le_bytes(first) != spec_u64_to_le_bytes(second),
{
    lemma_auto_spec_u64_to_from_le_bytes();
}

/// Byte-exact equality of two digests.
pub fn digest_eq(a: &[u8; 32], b: &[u8; 32]) -> (same: bool)
    ensures
        same == (a@ == b@),
{
    let mut i: usize = 0;
    while i < DIGEST_LEN
        invariant
            i <= DIGEST_LEN,
            forall|j: int| 0 <= j < i ==> a@[j] == b@[j],
        decreases DIGEST_LEN - i,
    {
        if a[i] != b[i] {
            return false;
        }
        i += 1;
    }
    assert(a@ =~= b@);
    true
}

} // verus!
