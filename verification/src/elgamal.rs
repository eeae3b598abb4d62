//! ElGamal-style commitments over the Ristretto prime-order group.
//!
//! The message is itself a group element. Under the public key `H = G^h`
//! and a fresh blinding scalar `randomness`, the commitment is the pair
//! `(G^randomness, value * H^randomness)`; verification recomputes both
//! coordinates from the opening and compares the pair.

use vstd::prelude::*;

use curve25519_dalek::ristretto::RistrettoPoint;
use curve25519_dalek::scalar::Scalar;

use crate::ristretto::{
    basepoint_mul, point_add, point_eq, point_mul, random_scalar, spec_basepoint_mul,
    spec_point_add, spec_point_mul,
};
use crate::rng::SecureRng;

verus! {

/// The first coordinate of the commitment: `G^randomness`.
pub open spec fn spec_randomness_pin(randomness: Scalar) -> RistrettoPoint {
    spec_basepoint_mul(randomness)
}

/// The second coordinate of the commitment: `value * H^randomness`.
pub open spec fn spec_value_term(value: RistrettoPoint, randomness: Scalar, h: RistrettoPoint)
    -> RistrettoPoint {
    spec_point_add(value, spec_point_mul(h, randomness))
}

/// A commitment: the pair `(G^randomness, value * H^randomness)`.
#[derive(Clone, Copy, Debug, PartialEq, Eq)]
pub struct Commitment(RistrettoPoint, RistrettoPoint);

/// The message and the blinding scalar that produced a commitment.
#[derive(Clone, Copy, Debug)]
pub struct OpeningInfo {
    value: RistrettoPoint,
    randomness: Scalar,
}

/// The second generator `H`, shared read-only by committer and verifier.
#[derive(Clone, Copy, Debug)]
pub struct PublicKey {
    h: RistrettoPoint,
}

impl OpeningInfo {
    pub closed spec fn spec_value(self) -> RistrettoPoint {
        self.value
    }

    pub closed spec fn spec_randomness(self) -> Scalar {
        self.randomness
    }

    /// Assemble opening information from a message and a blinding scalar.
    pub fn new(value: RistrettoPoint, randomness: Scalar) -> (r: Self)
        ensures
            r.spec_value() == value,
            r.spec_randomness() == randomness,
    {
        OpeningInfo { value, randomness }
    }

    pub fn value(&self) -> (r: RistrettoPoint)
        ensures
            r == self.spec_value(),
    {
        self.value
    }

    pub fn randomness(&self) -> (r: Scalar)
        ensures
            r == self.spec_randomness(),
    {
        self.randomness
    }
}

impl PublicKey {
    pub closed spec fn spec_h(self) -> RistrettoPoint {
        self.h
    }

    /// Sample `H = G^h` for a freshly drawn secret scalar `h`; `h` is
    /// discarded, so no trapdoor is retained.
    pub fn random(rng: &mut SecureRng) -> (r: Self)
        ensures
            exists|s: Scalar| r.spec_h() == spec_basepoint_mul(s),
    {
        let s = random_scalar(rng);
        let h = basepoint_mul(&s);
        proof {
            assert(h == spec_basepoint_mul(s));
        }
        PublicKey { h }
    }

    /// Build a key from a known second generator.
    pub fn new(h: RistrettoPoint) -> (r: Self)
        ensures
            r.spec_h() == h,
    {
        PublicKey { h }
    }

    pub fn h(&self) -> (r: RistrettoPoint)
        ensures
            r == self.spec_h(),
    {
        self.h
    }
}

impl Commitment {
    pub closed spec fn spec_first(self) -> RistrettoPoint {
        self.0
    }

    pub closed spec fn spec_second(self) -> RistrettoPoint {
        self.1
    }

    /// An opening is accepted exactly when it recomputes both coordinates.
    pub open spec fn spec_is_valid(self, public_key: PublicKey, opening_info: OpeningInfo)
        -> bool {
        &&& self.spec_first() == spec_randomness_pin(opening_info.spec_randomness())
        &&& self.spec_second() == spec_value_term(
            opening_info.spec_value(),
            opening_info.spec_randomness(),
            public_key.spec_h(),
        )
    }

    /// Commit to the group element `value`: draw a fresh blinding scalar
    /// and form the pair `(G^randomness, value * H^randomness)`.
    pub fn create(value: RistrettoPoint, public_key: PublicKey, rng: &mut SecureRng) -> (res: (
        Commitment,
        OpeningInfo,
    ))
        ensures
            res.1.spec_value() == value,
            res.0.spec_first() == spec_randomness_pin(res.1.spec_randomness()),
            res.0.spec_second() == spec_value_term(
                value,
                res.1.spec_randomness(),
                public_key.spec_h(),
            ),
            res.0.spec_is_valid(public_key, res.1),
    {
        let randomness = random_scalar(rng);
        let opening_info = OpeningInfo { value, randomness };
        let randomness_pin = basepoint_mul(&randomness);
        let h_term = point_mul(&public_key.h, &randomness);
        let value_term = point_add(&value, &h_term);
        (Commitment(randomness_pin, value_term), opening_info)
    }

    /// Recompute both coordinates from the opening and compare the pair.
    /// Returning `false` is an expected outcome, not a fault.
    pub fn is_valid(&self, public_key: PublicKey, opening_info: OpeningInfo) -> (r: bool)
        ensures
            r == self.spec_is_valid(public_key, opening_info),
    {
        let randomness_pin = basepoint_mul(&opening_info.randomness);
        if !point_eq(&randomness_pin, &self.0) {
            return false;
        }
        let h_term = point_mul(&public_key.h, &opening_info.randomness);
        let value_term = point_add(&opening_info.value, &h_term);
        point_eq(&value_term, &self.1)
    }

    pub fn first(&self) -> (r: RistrettoPoint)
        ensures
            r == self.spec_first(),
    {
        self.0
    }

    pub fn second(&self) -> (r: RistrettoPoint)
        ensures
            r == self.spec_second(),
    {
        self.1
    }
}

/// Completeness: any opening that recomputes both coordinates is accepted,
/// so an honestly created commitment always verifies against its paired
/// opening information.
pub proof fn lemma_completeness(c: Commitment, public_key: PublicKey, opening_info: OpeningInfo)
    requires
        c.spec_first() == spec_randomness_pin(opening_info.spec_randomness()),
        c.spec_second() == spec_value_term(
            opening_info.spec_value(),
            opening_info.spec_randomness(),
            public_key.spec_h(),
        ),
    ensures
        c.spec_is_valid(public_key, opening_info),
{
}

/// Binding, reduced to its deterministic core: two openings accepted by the
/// same commitment recompute the same pair of group elements.
pub proof fn lemma_valid_openings_collide(
    c: Commitment,
    public_key: PublicKey,
    o1: OpeningInfo,
    o2: OpeningInfo,
)
    requires
        c.spec_is_valid(public_key, o1),
        c.spec_is_valid(public_key, o2),
    ensures
        spec_randomness_pin(o1.spec_randomness()) == spec_randomness_pin(o2.spec_randomness()),
        spec_value_term(o1.spec_value(), o1.spec_randomness(), public_key.spec_h())
            == spec_value_term(o2.spec_value(), o2.spec_randomness(), public_key.spec_h()),
{
}

/// Opening non-malleability, deterministic core: an opening that fails to
/// recompute either coordinate is rejected.
pub proof fn lemma_rejects_noncolliding(
    c: Commitment,
    public_key: PublicKey,
    opening_info: OpeningInfo,
)
    requires
        c.spec_first() != spec_randomness_pin(opening_info.spec_randomness()) || c.spec_second()
            != spec_value_term(
            opening_info.spec_value(),
            opening_info.spec_randomness(),
            public_key.spec_h(),
        ),
    ensures
        !c.spec_is_valid(public_key, opening_info),
{
}

/// Determinism of verification: the accepted/rejected outcome is a function
/// of the commitment, the public key and the opening alone.
pub proof fn lemma_is_valid_deterministic(
    c1: Commitment,
    c2: Commitment,
    pk1: PublicKey,
    pk2: PublicKey,
    o1: OpeningInfo,
    o2: OpeningInfo,
)
    requires
        c1 == c2,
        pk1 == pk2,
        o1 == o2,
    ensures
        c1.spec_is_valid(pk1, o1) == c2.spec_is_valid(pk2, o2),
{
}

} // verus!
