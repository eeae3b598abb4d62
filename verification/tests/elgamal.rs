use curve25519_dalek::constants::RISTRETTO_BASEPOINT_POINT;
use curve25519_dalek::scalar::Scalar;
use rand::rngs::StdRng;
use rand::SeedableRng;

use homomorphic_commitments::elgamal::{Commitment, OpeningInfo, PublicKey};
use homomorphic_commitments::rng::SecureRng;

fn rng_from(byte: u8) -> SecureRng {
    SecureRng::new(StdRng::from_seed([byte; 32]))
}

#[test]
fn elgamal_completeness() {
    let mut rng = rng_from(11);
    let public_key = PublicKey::random(&mut rng);
    let value = RISTRETTO_BASEPOINT_POINT * Scalar::from(42u64);
    let (commitment, opening_info) = Commitment::create(value, public_key, &mut rng);
    assert!(commitment.is_valid(public_key, opening_info));
}

#[test]
fn elgamal_binding_distinct_messages() {
    let mut rng = rng_from(12);
    let public_key = PublicKey::random(&mut rng);
    let v3 = RISTRETTO_BASEPOINT_POINT * Scalar::from(3u64);
    let v5 = RISTRETTO_BASEPOINT_POINT * Scalar::from(5u64);
    let (c3, _) = Commitment::create(v3, public_key, &mut rng);
    let (c5, _) = Commitment::create(v5, public_key, &mut rng);
    assert!(c3 != c5);
}

#[test]
fn elgamal_opening_non_malleability() {
    let mut rng = rng_from(13);
    let public_key = PublicKey::random(&mut rng);
    let value = RISTRETTO_BASEPOINT_POINT * Scalar::from(9u64);
    let (commitment, opening_info) = Commitment::create(value, public_key, &mut rng);

    let forged_randomness =
        OpeningInfo::new(value, opening_info.randomness() + Scalar::from(1u64));
    assert!(!commitment.is_valid(public_key, forged_randomness));

    let forged_value = OpeningInfo::new(
        value + RISTRETTO_BASEPOINT_POINT,
        opening_info.randomness(),
    );
    assert!(!commitment.is_valid(public_key, forged_value));
}

#[test]
fn elgamal_is_valid_deterministic() {
    let mut rng = rng_from(14);
    let public_key = PublicKey::random(&mut rng);
    let value = RISTRETTO_BASEPOINT_POINT * Scalar::from(7u64);
    let (commitment, opening_info) = Commitment::create(value, public_key, &mut rng);
    let first = commitment.is_valid(public_key, opening_info);
    let second = commitment.is_valid(public_key, opening_info);
    assert_eq!(first, second);
    assert!(first);
}

#[test]
fn elgamal_commitment_structure() {
    // The first coordinate pins the blinding scalar: it must equal
    // G^randomness computed independently.
    let mut rng = rng_from(15);
    let public_key = PublicKey::random(&mut rng);
    let value = RISTRETTO_BASEPOINT_POINT * Scalar::from(21u64);
    let (commitment, opening_info) = Commitment::create(value, public_key, &mut rng);
    let expected_pin = RISTRETTO_BASEPOINT_POINT * opening_info.randomness();
    assert_eq!(expected_pin, commitment.first());
    let expected_term = value + public_key.h() * opening_info.randomness();
    assert_eq!(expected_term, commitment.second());
}
