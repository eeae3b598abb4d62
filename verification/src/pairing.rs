//! Trusted interface to the Barreto-Naehrig pairing of `substrate_bn`,
//! used by the Groth vector commitment.
//!
//! Values of `G1`, `G2` and `Gt` are read abstractly as the group elements
//! they represent. The pairing and the target-group operation are named by
//! uninterpreted spec functions: each is a function of its arguments alone,
//! and nothing more is assumed of it than the crate documents.

use vstd::prelude::*;

use substrate_bn::{Fr, G1, G2, Group, Gt};

use crate::rng::SecureRng;

verus! {

#[verifier::external_type_specification]
#[verifier::external_body]
pub struct ExFr(Fr);

#[verifier::external_type_specification]
#[verifier::external_body]
pub struct ExG1(G1);

#[verifier::external_type_specification]
#[verifier::external_body]
pub struct ExG2(G2);

#[verifier::external_type_specification]
#[verifier::external_body]
pub struct ExGt(Gt);

/// Relies on G1 being Copy: its derived clone returns the value itself.
pub assume_specification[ <G1 as Clone>::clone ](v: &G1) -> (r: G1)
    ensures
        r == *v,
;

/// Relies on G2 being Copy: its derived clone returns the value itself.
pub assume_specification[ <G2 as Clone>::clone ](v: &G2) -> (r: G2)
    ensures
        r == *v,
;

/// The bilinear pairing `e(p, q)` into the target group.
pub uninterp spec fn spec_pairing(p: G1, q: G2) -> Gt;

/// The target-group operation applied to `a` and `b`.
pub uninterp spec fn spec_gt_mul(a: Gt, b: Gt) -> Gt;

/// The G1 generator raised to the field element `s`.
pub uninterp spec fn spec_g1_base_mul(s: Fr) -> G1;

/// The G2 generator raised to the field element `s`.
pub uninterp spec fn spec_g2_base_mul(s: Fr) -> G2;

/// Relies on substrate_bn::pairing: the pairing of `p` and `q`, a function
/// of the two group elements alone.
#[verifier::external_body]
pub(crate) fn pairing(p: &G1, q: &G2) -> (r: Gt)
    ensures
        r == spec_pairing(*p, *q),
{
    substrate_bn::pairing(*p, *q)
}

/// Relies on Gt's Mul: the target-group operation.
#[verifier::external_body]
pub(crate) fn gt_mul(a: &Gt, b: &Gt) -> (r: Gt)
    ensures
        r == spec_gt_mul(*a, *b),
{
    *a * *b
}

/// Relies on Gt's PartialEq: two values compare equal exactly when they
/// represent the same target-group element.
#[verifier::external_body]
pub(crate) fn gt_eq(a: &Gt, b: &Gt) -> (r: bool)
    ensures
        r == (*a == *b),
{
    a == b
}

/// Relies on G1's Group::one and Mul<Fr>: the G1 generator raised to `s`,
/// a function of `s` alone.
#[verifier::external_body]
pub(crate) fn g1_base_mul(s: &Fr) -> (r: G1)
    ensures
        r == spec_g1_base_mul(*s),
{
    G1::one() * *s
}

/// Relies on G2's Group::one and Mul<Fr>: the G2 generator raised to `s`,
/// a function of `s` alone.
#[verifier::external_body]
pub(crate) fn g2_base_mul(s: &Fr) -> (r: G2)
    ensures
        r == spec_g2_base_mul(*s),
{
    G2::one() * *s
}

/// Relies on Fr::random: a fresh uniformly random field element drawn from
/// the supplied source. Nothing is promised of the value.
#[verifier::external_body]
pub(crate) fn random_fr(rng: &mut SecureRng) -> Fr {
    Fr::random(&mut rng.inner)
}

} // verus!
