//! Hash primitives and proof verification.

pub mod groth16;
pub mod poseidon;
pub mod vkeys;

pub use groth16::{
    verify_range_proof, verify_shield_proof, verify_transfer_proof, MIN_PROOF_LENGTH, PROOF_SIZE,
};
pub use poseidon::{amount_to_bytes, create_commitment, generate_nullifier, poseidon_hash_2};
