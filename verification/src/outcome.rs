//! The four flags that a validation publishes.

use vstd::prelude::*;

verus! {

/// The outcome of validating one order. A `false` flag is a result, not an
/// error: it says which rule the order fails.
#[derive(Clone, Copy, Debug, PartialEq, Eq)]
pub struct ValidationResult {
    /// All three checks passed.
    pub is_valid: bool,
    /// The payload hashes to the commitment.
    pub commitment_valid: bool,
    /// The balance covers the required margin.
    pub balance_sufficient: bool,
    /// The nullifier was not consumed before.
    pub nullifier_unused: bool,
}

impl ValidationResult {
    /// The invariant of every result that a validation produces: the order
    /// is valid exactly when all three checks passed.
    pub open spec fn consistent(&self) -> bool {
        self.is_valid == (self.commitment_valid && self.balance_sufficient
            && self.nullifier_unused)
    }

    /// The result that the three checks add up to.
    pub open spec fn of_checks(
        commitment_valid: bool,
        balance_sufficient: bool,
        nullifier_unused: bool,
    ) -> ValidationResult {
        ValidationResult {
            is_valid: commitment_valid && balance_sufficient && nullifier_unused,
            commitment_valid,
            balance_sufficient,
            nullifier_unused,
        }
    }

    /// Combines the three checks: each flag is kept, and `is_valid` is their
    /// conjunction.
    pub fn aggregate(
        commitment_valid: bool,
        balance_sufficient: bool,
        nullifier_unused: bool,
    ) -> (result: ValidationResult)
        ensures
            result == Self::of_checks(commitment_valid, balance_sufficient, nullifier_unused),
            result.consistent(),
    {
        let is_valid = commitment_valid && balance_sufficient && nullifier_unused;
        ValidationResult { is_valid, commitment_valid, balance_sufficient, nullifier_unused }
    }
}

} // verus!
