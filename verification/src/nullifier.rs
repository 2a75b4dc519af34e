//! The set of nullifiers that earlier orders consumed, and the replay check.

use crate::hash::digest_eq;
use vstd::prelude::*;

verus! {

/// The byte strings that a sequence of 32-byte values stands for, in order.
pub open spec fn digest_views(entries: Seq<[u8; 32]>) -> Seq<Seq<u8>> {
    entries.map_values(|entry: [u8; 32]| entry@)
}

/// The nullifiers that were already consumed.
///
/// Only membership matters: the order of the entries and how often one
/// occurs have no meaning, and the view is the set of the values held.
#[derive(Debug)]
pub struct NullifierSet {
    entries: Vec<[u8; 32]>,
}

impl View for NullifierSet {
    type V = Set<Seq<u8>>;

    closed spec fn view(&self) -> Set<Seq<u8>> {
        digest_views(self.entries@).to_set()
    }
}

impl NullifierSet {
    /// The set without any nullifier.
    pub fn new() -> (set: NullifierSet)
        ensures
            set@ == Set::<Seq<u8>>::empty(),
    {
        let set = NullifierSet { entries: Vec::new() };
        assert(set@ =~= Set::<Seq<u8>>::empty());
        set
    }

    /// The set of the values in `entries`.
    pub fn from_entries(entries: Vec<[u8; 32]>) -> (set: NullifierSet)
        ensures
            set@ == digest_views(entries@).to_set(),
    {
        NullifierSet { entries }
    }

    /// Whether `nullifier` is in the set, compared over all of its 32 bytes.
    pub fn contains(&self, nullifier: &[u8; 32]) -> (found: bool)
        ensures
            found == self@.contains(nullifier@),
    {
        let ghost held = digest_views(self.entries@);
        let mut i: usize = 0;
        while i < self.entries.len()
            invariant
                i <= self.entries.len(),
                held == digest_views(self.entries@),
                forall|j: int| 0 <= j < i ==> held[j] != nullifier@,
            decreases self.entries.len() - i,
        {
            if digest_eq(&self.entries[i], nullifier) {
                assert(held[i as int] == nullifier@);
                return true;
            }
            i += 1;
        }
        false
    }
}

/// Whether `nullifier` is fresh: it does not occur among the `used` ones.
pub open spec fn nullifier_unused(nullifier: Seq<u8>, used: Set<Seq<u8>>) -> bool {
    !used.contains(nullifier)
}

/// Checks that the nullifier was not consumed before.
pub fn check_nullifier(nullifier: &[u8; 32], used: &NullifierSet) -> (unused: bool)
    ensures
        unused == nullifier_unused(nullifier@, used@),
{
    !used.contains(nullifier)
}

/// Against the empty set every nullifier is fresh.
pub proof fn lemma_empty_set_admits_every_nullifier(nullifier: Seq<u8>)
    ensures
        nullifier_unused(nullifier, Set::<Seq<u8>>::empty()),
{
}

} // verus!
