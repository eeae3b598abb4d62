//! Trusted interface to the Ristretto prime-order group of
//! `curve25519_dalek`, used by the Pedersen and ElGamal-style schemes.
//!
//! A `RistrettoPoint` value is read abstractly as the group element it
//! represents. The group operations are named by uninterpreted spec
//! functions: each is a function of its arguments alone, and nothing more
//! is assumed of it than the crate documents.

use vstd::prelude::*;

use curve25519_dalek::ristretto::RistrettoPoint;
use curve25519_dalek::scalar::Scalar;
use curve25519_dalek::traits::MultiscalarMul;

use crate::rng::SecureRng;

verus! {

#[verifier::external_type_specification]
#[verifier::external_body]
pub struct ExScalar(Scalar);

#[verifier::external_type_specification]
#[verifier::external_body]
pub struct ExRistrettoPoint(RistrettoPoint);

/// The fixed Ristretto basepoint raised to the scalar `s`.
pub uninterp spec fn spec_basepoint_mul(s: Scalar) -> RistrettoPoint;

/// The point `p` raised to the scalar `s`.
pub uninterp spec fn spec_point_mul(p: RistrettoPoint, s: Scalar) -> RistrettoPoint;

/// The group operation applied to `a` and `b`.
pub uninterp spec fn spec_point_add(a: RistrettoPoint, b: RistrettoPoint) -> RistrettoPoint;

/// Relies on curve25519_dalek's scalar multiplication together with the
/// constant RISTRETTO_BASEPOINT_POINT: the result depends on `s` alone.
#[verifier::external_body]
pub(crate) fn basepoint_mul(s: &Scalar) -> (r: RistrettoPoint)
    ensures
        r == spec_basepoint_mul(*s),
{
    curve25519_dalek::constants::RISTRETTO_BASEPOINT_POINT * s
}

/// Relies on curve25519_dalek's scalar multiplication of Ristretto points.
#[verifier::external_body]
pub(crate) fn point_mul(p: &RistrettoPoint, s: &Scalar) -> (r: RistrettoPoint)
    ensures
        r == spec_point_mul(*p, *s),
{
    p * s
}

/// Relies on curve25519_dalek's group addition of Ristretto points.
#[verifier::external_body]
pub(crate) fn point_add(a: &RistrettoPoint, b: &RistrettoPoint) -> (r: RistrettoPoint)
    ensures
        r == spec_point_add(*a, *b),
{
    a + b
}

/// Relies on RistrettoPoint's PartialEq: two values compare equal exactly
/// when they represent the same group element.
#[verifier::external_body]
pub(crate) fn point_eq(a: &RistrettoPoint, b: &RistrettoPoint) -> (r: bool)
    ensures
        r == (*a == *b),
{
    a == b
}

/// Relies on RistrettoPoint::multiscalar_mul: the result is the sum of each
/// supplied point raised to its paired scalar, here
/// `G^value * H^randomness` for the fixed basepoint `G`.
#[verifier::external_body]
pub(crate) fn basepoint_h_msm(value: &Scalar, randomness: &Scalar, h: &RistrettoPoint) -> (r:
    RistrettoPoint)
    ensures
        r == spec_point_add(spec_basepoint_mul(*value), spec_point_mul(*h, *randomness)),
{
    RistrettoPoint::multiscalar_mul(
        &[*value, *randomness],
        &[curve25519_dalek::constants::RISTRETTO_BASEPOINT_POINT, *h],
    )
}

/// Relies on Scalar::random: a fresh uniformly random scalar drawn from the
/// supplied source. Nothing is promised of the value.
#[verifier::external_body]
pub(crate) fn random_scalar(rng: &mut SecureRng) -> Scalar {
    Scalar::random(&mut rng.inner)
}

} // verus!
