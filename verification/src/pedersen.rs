//! Pedersen commitments over the Ristretto prime-order group.
//!
//! The public key is a second generator `H = G^h` for a secret scalar `h`
//! that is discarded after key generation. A commitment to a scalar `value`
//! under blinding scalar `randomness` is the point
//! `G^value * H^randomness`; verification recomputes that point from the
//! opening and compares it with the stored one.

use vstd::prelude::*;

use curve25519_dalek::ristretto::RistrettoPoint;
use curve25519_dalek::scalar::Scalar;

use crate::ristretto::{
    basepoint_h_msm, basepoint_mul, point_eq, random_scalar, spec_basepoint_mul, spec_point_add,
    spec_point_mul,
};
use crate::rng::SecureRng;

verus! {

/// The Pedersen commitment point `G^value * H^randomness`.
pub open spec fn spec_commit_point(value: Scalar, randomness: Scalar, h: RistrettoPoint)
    -> RistrettoPoint {
    spec_point_add(spec_basepoint_mul(value), spec_point_mul(h, randomness))
}

/// A commitment: a single group element, opaque to its holder.
#[derive(Clone, Copy, Debug)]
pub struct Commitment(RistrettoPoint);

/// The message and the blinding scalar that produced a commitment,
/// revealed later to open it.
#[derive(Clone, Copy, Debug)]
pub struct OpeningInfo {
    value: Scalar,
    randomness: Scalar,
}

/// The second generator `H`, shared read-only by committer and verifier.
#[derive(Clone, Copy, Debug)]
pub struct PublicKey {
    h: RistrettoPoint,
}

impl OpeningInfo {
    pub closed spec fn spec_value(self) -> Scalar {
        self.value
    }

    pub closed spec fn spec_randomness(self) -> Scalar {
        self.randomness
    }

    /// Assemble opening information from a message and a blinding scalar.
    pub fn new(value: Scalar, randomness: Scalar) -> (r: Self)
        ensures
            r.spec_value() == value,
            r.spec_randomness() == randomness,
    {
        OpeningInfo { value, randomness }
    }

    pub fn value(&self) -> (r: Scalar)
        ensures
            r == self.spec_value(),
    {
        self.value
    }

    pub fn randomness(&self) -> (r: Scalar)
        ensures
            r == self.spec_randomness(),
    {
        self.randomness
    }
}

impl PublicKey {
    pub closed spec fn spec_h(self) -> RistrettoPoint {
        self.h
    }

    /// Sample `H = G^h` for a freshly drawn secret scalar `h`; `h` is
    /// discarded, so no trapdoor is retained.
    pub fn random(rng: &mut SecureRng) -> (r: Self)
        ensures
            exists|s: Scalar| r.spec_h() == spec_basepoint_mul(s),
    {
        let s = random_scalar(rng);
        let h = basepoint_mul(&s);
        proof {
            assert(h == spec_basepoint_mul(s));
        }
        PublicKey { h }
    }

    /// Build a key from a known second generator.
    pub fn new(h: RistrettoPoint) -> (r: Self)
        ensures
            r.spec_h() == h,
    {
        PublicKey { h }
    }

    pub fn h(&self) -> (r: RistrettoPoint)
        ensures
            r == self.spec_h(),
    {
        self.h
    }
}

impl Commitment {
    /// The committed group element.
    pub closed spec fn spec_point(self) -> RistrettoPoint {
        self.0
    }

    /// An opening is accepted exactly when it recomputes the stored point.
    pub open spec fn spec_is_valid(self, public_key: PublicKey, opening_info: OpeningInfo)
        -> bool {
        self.spec_point() == spec_commit_point(
            opening_info.spec_value(),
            opening_info.spec_randomness(),
            public_key.spec_h(),
        )
    }

    /// Commit to `value`: draw a fresh blinding scalar and form
    /// `G^value * H^randomness` by a multi-exponentiation, returned together
    /// with the opening information that will later open it.
    pub fn create(value: Scalar, public_key: PublicKey, rng: &mut SecureRng) -> (res: (
        Commitment,
        OpeningInfo,
    ))
        ensures
            res.1.spec_value() == value,
            res.0.spec_point() == spec_commit_point(
                value,
                res.1.spec_randomness(),
                public_key.spec_h(),
            ),
            res.0.spec_is_valid(public_key, res.1),
    {
        let randomness = random_scalar(rng);
        let c = basepoint_h_msm(&value, &randomness, &public_key.h);
        let opening_info = OpeningInfo { value, randomness };
        (Commitment(c), opening_info)
    }

    /// Recompute the commitment point from the opening and compare it with
    /// the stored one. Returning `false` is an expected outcome, not a fault.
    pub fn is_valid(&self, public_key: PublicKey, opening_info: OpeningInfo) -> (r: bool)
        ensures
            r == self.spec_is_valid(public_key, opening_info),
    {
        let c = basepoint_h_msm(&opening_info.value, &opening_info.randomness, &public_key.h);
        point_eq(&c, &self.0)
    }

    pub fn point(&self) -> (r: RistrettoPoint)
        ensures
            r == self.spec_point(),
    {
        self.0
    }
}

/// Completeness: any opening that recomputes the stored point is accepted,
/// so an honestly created commitment always verifies against its paired
/// opening information.
pub proof fn lemma_completeness(c: Commitment, public_key: PublicKey, opening_info: OpeningInfo)
    requires
        c.spec_point() == spec_commit_point(
            opening_info.spec_value(),
            opening_info.spec_randomness(),
            public_key.spec_h(),
        ),
    ensures
        c.spec_is_valid(public_key, opening_info),
{
}

/// Binding, reduced to its deterministic core: two openings accepted by the
/// same commitment recompute the same group element, so producing openings
/// for distinct messages demands a collision of commitment points.
pub proof fn lemma_valid_openings_collide(
    c: Commitment,
    public_key: PublicKey,
    o1: OpeningInfo,
    o2: OpeningInfo,
)
    requires
        c.spec_is_valid(public_key, o1),
        c.spec_is_valid(public_key, o2),
    ensures
        spec_commit_point(o1.spec_value(), o1.spec_randomness(), public_key.spec_h())
            == spec_commit_point(o2.spec_value(), o2.spec_randomness(), public_key.spec_h()),
{
}

/// Opening non-malleability, deterministic core: an opening whose
/// recomputed point differs from the stored one is rejected.
pub proof fn lemma_rejects_noncolliding(
    c: Commitment,
    public_key: PublicKey,
    opening_info: OpeningInfo,
)
    requires
        c.spec_point() != spec_commit_point(
            opening_info.spec_value(),
            opening_info.spec_randomness(),
            public_key.spec_h(),
        ),
    ensures
        !c.spec_is_valid(public_key, opening_info),
{
}

/// Determinism of verification: the accepted/rejected outcome is a function
/// of the commitment, the public key and the opening alone.
pub proof fn lemma_is_valid_deterministic(
    c1: Commitment,
    c2: Commitment,
    pk1: PublicKey,
    pk2: PublicKey,
    o1: OpeningInfo,
    o2: OpeningInfo,
)
    requires
        c1 == c2,
        pk1 == pk2,
        o1 == o2,
    ensures
        c1.spec_is_valid(pk1, o1) == c2.spec_is_valid(pk2, o2),
{
}

} // verus!
