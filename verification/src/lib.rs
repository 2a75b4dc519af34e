//! Validation core of a confidential order-submission scheme.
//!
//! An order is submitted as a public commitment together with private
//! witnesses: the order payload, the account balance, the margin that the
//! order requires, and the set of nullifiers that were already consumed.
//! The validator decides whether the payload hashes to the commitment,
//! whether the balance covers the margin, and whether the nullifier is
//! fresh, and it publishes only the commitment, the nullifier, a digest of
//! the balance and the four resulting flags.

pub mod balance;
pub mod commitment;
pub mod hash;
pub mod nullifier;
pub mod outcome;
pub mod outputs;
pub mod program;
pub mod validator;
pub mod wire;
