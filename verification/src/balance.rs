//! The balance check: is the margin covered, and what may be shown of the
//! balance.

use crate::hash::{balance_digest, hash_balance};
use vstd::prelude::*;

verus! {

/// Whether `balance` covers `margin`, compared as unsigned integers.
pub open spec fn balance_sufficient(balance: u64, margin: u64) -> bool {
    balance >= margin
}

/// Compares the balance with the required margin and derives the digest
/// under which the balance is published. The digest is computed whatever the
/// comparison gives.
pub fn check_balance(balance: u64, margin: u64) -> (out: (bool, [u8; 32]))
    ensures
        out.0 == balance_sufficient(balance, margin),
        out.1@ == balance_digest(balance),
{
    let sufficient = balance >= margin;
    let digest = hash_balance(balance);
    (sufficient, digest)
}

/// A balance that equals the margin covers it.
pub proof fn lemma_exact_balance_is_sufficient(balance: u64, margin: u64)
    requires
        balance == margin,
    ensures
        balance_sufficient(balance, margin),
{
}

} // verus!
