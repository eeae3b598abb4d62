use rand::rngs::StdRng;
use rand::SeedableRng;
use substrate_bn::{Fr, Group, G2};

use homomorphic_commitments::groth::{Commitment, OpeningInfo, PublicKey};
use homomorphic_commitments::rng::SecureRng;

fn rng_from(byte: u8) -> SecureRng {
    SecureRng::new(StdRng::from_seed([byte; 32]))
}

fn random_message(n: usize, seed: u8) -> Vec<G2> {
    let mut rng = StdRng::from_seed([seed; 32]);
    let mut message: Vec<G2> = Vec::new();
    for _ in 0..n {
        message.push(G2::one() * Fr::random(&mut rng));
    }
    message
}

#[test]
fn groth_completeness() {
    let mut rng = rng_from(21);
    let public_key = PublicKey::random(4, &mut rng);
    let message = random_message(4, 101);
    let (commitment, opening_info) =
        Commitment::create(message, &public_key, &mut rng).unwrap();
    assert!(commitment.is_valid(&public_key, &opening_info));
}

#[test]
fn groth_length_mismatch_rejected_at_creation() {
    let mut rng = rng_from(22);
    let public_key = PublicKey::random(16, &mut rng);
    let message = random_message(8, 102);
    assert!(Commitment::create(message, &public_key, &mut rng).is_none());
}

#[test]
fn groth_length_mismatch_rejected_at_verification() {
    let mut rng = rng_from(23);
    let public_key = PublicKey::random(16, &mut rng);
    let message = random_message(16, 103);
    let (commitment, opening_info) =
        Commitment::create(message, &public_key, &mut rng).unwrap();

    let short_opening =
        OpeningInfo::new(random_message(8, 104), opening_info.r(), opening_info.s());
    assert!(!commitment.is_valid(&public_key, &short_opening));
}

#[test]
fn groth_opening_non_malleability() {
    let mut rng = rng_from(24);
    let public_key = PublicKey::random(3, &mut rng);
    let message = random_message(3, 105);
    let (commitment, opening_info) =
        Commitment::create(message.clone(), &public_key, &mut rng).unwrap();

    // Swap in a different blinding element.
    let other_r = G2::one() * Fr::random(&mut StdRng::from_seed([106; 32]));
    let forged = OpeningInfo::new(message.clone(), other_r, opening_info.s());
    assert!(!commitment.is_valid(&public_key, &forged));

    // Swap in a different message of the right length.
    let forged_message =
        OpeningInfo::new(random_message(3, 107), opening_info.r(), opening_info.s());
    assert!(!commitment.is_valid(&public_key, &forged_message));
}

#[test]
fn groth_is_valid_deterministic() {
    let mut rng = rng_from(25);
    let public_key = PublicKey::random(2, &mut rng);
    let message = random_message(2, 108);
    let (commitment, opening_info) =
        Commitment::create(message, &public_key, &mut rng).unwrap();
    let first = commitment.is_valid(&public_key, &opening_info);
    let second = commitment.is_valid(&public_key, &opening_info);
    assert_eq!(first, second);
    assert!(first);
}

#[test]
fn groth_binding_distinct_messages() {
    let mut rng = rng_from(26);
    let public_key = PublicKey::random(2, &mut rng);
    let (c1, _) =
        Commitment::create(random_message(2, 109), &public_key, &mut rng).unwrap();
    let (c2, _) =
        Commitment::create(random_message(2, 110), &public_key, &mut rng).unwrap();
    assert!(c1 != c2);
}
