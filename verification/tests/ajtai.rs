use rand::rngs::StdRng;
use rand::SeedableRng;

use homomorphic_commitments::ajtai::{Commitment, PublicKey};
use homomorphic_commitments::matzq::MatZq;
use homomorphic_commitments::rng::SecureRng;

fn rng_from(byte: u8) -> SecureRng {
    SecureRng::new(StdRng::from_seed([byte; 32]))
}

#[test]
fn ajtai_completeness() {
    let mut rng = rng_from(31);
    let public_key = PublicKey::random(2, 3, 1000003, &mut rng);
    let value = MatZq::from_col(vec![1, 2, 3], 1000003);
    let (commitment, randomness) = Commitment::create(&value, &public_key, &mut rng);
    assert!(commitment.is_valid(&value, &randomness, &public_key));
}

#[test]
fn ajtai_shortness_gate() {
    // A2 is the zero matrix, so every randomness vector satisfies the
    // algebraic equation A1*value + A2*randomness == commitment; only the
    // shortness gate can tell a long opening from a short one.
    let q: u64 = 97;
    let a_1 = MatZq::from_rows(vec![vec![1, 1]], 2, q).unwrap();
    let a_2 = MatZq::from_rows(vec![vec![0, 0]], 2, q).unwrap();
    let public_key = PublicKey::new(a_1, a_2);

    let mut rng = rng_from(32);
    let value = MatZq::from_col(vec![1, 0], q);
    let (commitment, randomness) = Commitment::create(&value, &public_key, &mut rng);
    assert!(commitment.is_valid(&value, &randomness, &public_key));

    // Norm 10*10 + 10*10 = 200 >= 50, despite algebraic equality.
    let long = MatZq::from_col(vec![10, 10], q);
    assert!(!commitment.is_valid(&value, &long, &public_key));
}

#[test]
fn ajtai_non_column_rejected() {
    let q: u64 = 97;
    let mut rng = rng_from(33);
    let public_key = PublicKey::random(2, 2, q, &mut rng);
    let value = MatZq::from_col(vec![1, 0], q);
    let (commitment, _) = Commitment::create(&value, &public_key, &mut rng);

    // A 2x2 matrix is not a column vector and must be rejected.
    let square = MatZq::new(2, 2, q);
    assert!(!commitment.is_valid(&value, &square, &public_key));
}

#[test]
fn ajtai_binding_distinct_messages() {
    // With A1 the identity and A2 zero, the commitment is the value itself,
    // so distinct values give distinct commitments with certainty.
    let q: u64 = 97;
    let a_1 = MatZq::from_rows(vec![vec![1, 0], vec![0, 1]], 2, q).unwrap();
    let a_2 = MatZq::from_rows(vec![vec![0, 0], vec![0, 0]], 2, q).unwrap();
    let public_key = PublicKey::new(a_1, a_2);

    let mut rng = rng_from(34);
    let v1 = MatZq::from_col(vec![1, 0], q);
    let v2 = MatZq::from_col(vec![0, 1], q);
    let (c1, _) = Commitment::create(&v1, &public_key, &mut rng);
    let (c2, _) = Commitment::create(&v2, &public_key, &mut rng);
    assert!(!c1.com().equals(c2.com()));
}

#[test]
fn ajtai_is_valid_deterministic() {
    let mut rng = rng_from(35);
    let public_key = PublicKey::random(3, 4, 65537, &mut rng);
    // Norm 25 + 16 + 4 + 4 = 49, strictly below the bound of 50.
    let value = MatZq::from_col(vec![5, 4, 2, 2], 65537);
    let (commitment, randomness) = Commitment::create(&value, &public_key, &mut rng);
    let first = commitment.is_valid(&value, &randomness, &public_key);
    let second = commitment.is_valid(&value, &randomness, &public_key);
    assert_eq!(first, second);
    assert!(first);
}

#[test]
fn ajtai_long_value_rejected() {
    let mut rng = rng_from(36);
    let q: u64 = 1000003;
    let public_key = PublicKey::random(2, 2, q, &mut rng);
    // Norm 7*7 + 1 = 50 >= 50: rejected by the strict bound.
    let value = MatZq::from_col(vec![7, 1], q);
    let (commitment, randomness) = Commitment::create(&value, &public_key, &mut rng);
    assert!(!commitment.is_valid(&value, &randomness, &public_key));
}
