//! Identities: short, fixed-size names for things that are known by a text.

use vstd::prelude::*;

verus! {

/// The 64-bit hash that `ahash` computes of `text` under the four-part key
/// `k0`, `k1`, `k2`, `k3`.
pub uninterp spec fn keyed_hash(k0: u64, k1: u64, k2: u64, k3: u64, text: Seq<char>) -> u64;

/// Hashes `text` with `ahash::RandomState::hash_one`, on a state that
/// `ahash::RandomState::with_seeds` makes of the four keys.
///
/// Not proved: that the result depends on nothing but the keys and the text.
/// `ahash` documents that states made with the same keys give identical
/// hashers. Such a state holds the keys and nothing else, no random source is
/// read on the way, and which of its algorithms `ahash` runs is settled when
/// it is built.
#[verifier::external_body]
fn hash_text(k0: u64, k1: u64, k2: u64, k3: u64, text: &str) -> (hash: u64)
    ensures
        hash == keyed_hash(k0, k1, k2, k3, text@),
{
    ahash::RandomState::with_seeds(k0, k1, k2, k3).hash_one(text)
}

/// The identity of something that is known by a text, such as the path of a
/// shader: a hash of the text under a key that is the same in every run.
#[derive(Debug, Clone, Copy, PartialEq, Eq, Hash, Structural)]
pub struct Id {
    pub hash: u64,
}

impl Id {
    /// The identity of `text`.
    pub open spec fn of(text: Seq<char>) -> Id {
        Id { hash: keyed_hash(1, 2, 3, 4, text) }
    }

    /// Computes the identity of `value`. The same text always has the same
    /// identity.
    pub fn new(value: &str) -> (id: Id)
        ensures
            id == Id::of(value@),
    {
        Id { hash: hash_text(1, 2, 3, 4, value) }
    }
}

/// Equal texts have equal identities.
pub proof fn lemma_identity_is_deterministic(first: Seq<char>, second: Seq<char>)
    requires
        first == second,
    ensures
        Id::of(first) == Id::of(second),
{
}

} // verus!
