//! The randomness capability that every commitment operation receives
//! explicitly from its caller.

use vstd::prelude::*;

verus! {

#[verifier::external_type_specification]
#[verifier::external_body]
pub struct ExStdRng(rand::rngs::StdRng);

/// A cryptographically secure randomness source. It is owned by the caller
/// and handed into every operation that draws randomness; the library never
/// reads ambient or global randomness state.
pub struct SecureRng {
    pub(crate) inner: rand::rngs::StdRng,
}

impl SecureRng {
    /// Wrap a caller-supplied generator.
    pub fn new(inner: rand::rngs::StdRng) -> (r: SecureRng) {
        SecureRng { inner }
    }

    /// Relies on rand::RngCore::next_u64: a fresh draw from the generator.
    /// Nothing is promised of the value.
    #[verifier::external_body]
    pub(crate) fn next_u64(&mut self) -> u64 {
        rand::RngCore::next_u64(&mut self.inner)
    }
}

} // verus!
