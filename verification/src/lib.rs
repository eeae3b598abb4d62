//! Cryptographic commitment schemes: Pedersen, ElGamal-style, Groth vector
//! commitments over a bilinear pairing, and an Ajtai lattice commitment.
//!
//! Each scheme offers the same capability set: generate a public key, create
//! a commitment together with its opening information, and verify an opening
//! against a commitment.

pub mod ajtai;
pub mod elgamal;
pub mod groth;
pub mod matzq;
pub mod pairing;
pub mod pedersen;
pub mod ristretto;
pub mod rng;
