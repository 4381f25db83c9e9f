//! Randomness, as far as the library draws on it.

use vstd::prelude::*;

verus! {

/// The source of randomness of a node.
#[verifier::external_type_specification]
#[verifier::external_body]
pub struct ExStdRng(rand::rngs::StdRng);

/// Calls `rand::RngCore::next_u32`.
///
/// Trusted: nothing is claimed of the number that comes back; it depends on `rng`.
#[verifier::external_body]
pub(crate) fn random_u32(rng: &mut rand::rngs::StdRng) -> u32 {
    rand::RngCore::next_u32(rng)
}

/// Calls `rand::RngCore::next_u64`.
///
/// Trusted: nothing is claimed of the number that comes back; it depends on `rng`.
#[verifier::external_body]
pub(crate) fn random_u64(rng: &mut rand::rngs::StdRng) -> u64 {
    rand::RngCore::next_u64(rng)
}

} // verus!
