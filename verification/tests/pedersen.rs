use curve25519_dalek::constants::RISTRETTO_BASEPOINT_POINT;
use curve25519_dalek::scalar::Scalar;
use rand::rngs::StdRng;
use rand::SeedableRng;

use homomorphic_commitments::pedersen::{Commitment, OpeningInfo, PublicKey};
use homomorphic_commitments::rng::SecureRng;

fn rng_from(byte: u8) -> SecureRng {
    SecureRng::new(StdRng::from_seed([byte; 32]))
}

#[test]
fn pedersen_completeness() {
    let mut rng = rng_from(1);
    let public_key = PublicKey::random(&mut rng);
    let (commitment, opening_info) = Commitment::create(Scalar::from(42u64), public_key, &mut rng);
    assert!(commitment.is_valid(public_key, opening_info));
}

#[test]
fn pedersen_binding_distinct_messages() {
    let mut rng = rng_from(2);
    let public_key = PublicKey::random(&mut rng);
    let (c3, _) = Commitment::create(Scalar::from(3u64), public_key, &mut rng);
    let (c5, _) = Commitment::create(Scalar::from(5u64), public_key, &mut rng);
    assert!(c3.point() != c5.point());
}

#[test]
fn pedersen_opening_non_malleability() {
    let mut rng = rng_from(3);
    let public_key = PublicKey::random(&mut rng);
    let value = Scalar::from(9u64);
    let (commitment, opening_info) = Commitment::create(value, public_key, &mut rng);

    let forged_randomness = OpeningInfo::new(value, opening_info.randomness() + Scalar::from(1u64));
    assert!(!commitment.is_valid(public_key, forged_randomness));

    let forged_value = OpeningInfo::new(value + Scalar::from(1u64), opening_info.randomness());
    assert!(!commitment.is_valid(public_key, forged_value));
}

#[test]
fn pedersen_is_valid_deterministic() {
    let mut rng = rng_from(4);
    let public_key = PublicKey::random(&mut rng);
    let (commitment, opening_info) = Commitment::create(Scalar::from(7u64), public_key, &mut rng);
    let first = commitment.is_valid(public_key, opening_info);
    let second = commitment.is_valid(public_key, opening_info);
    assert_eq!(first, second);
    assert!(first);
}

#[test]
fn pedersen_end_to_end() {
    let h_scalar = Scalar::from(123456789u64);
    let h = RISTRETTO_BASEPOINT_POINT * h_scalar;
    let public_key = PublicKey::new(h);

    let mut rng = rng_from(5);
    let (commitment, opening_info) = Commitment::create(Scalar::from(5u64), public_key, &mut rng);

    // The commitment must equal G^5 * H^r computed independently.
    let expected =
        RISTRETTO_BASEPOINT_POINT * Scalar::from(5u64) + h * opening_info.randomness();
    assert_eq!(expected, commitment.point());

    // A second commitment to the same value under fresh randomness differs.
    let (second, second_opening) = Commitment::create(Scalar::from(5u64), public_key, &mut rng);
    assert!(second_opening.randomness() != opening_info.randomness());
    assert!(second.point() != commitment.point());
}
