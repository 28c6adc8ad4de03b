//! Ashborn: the core of a shielded-value ledger.
//!
//! The crate keeps two append-only Merkle accumulators (note commitments and
//! spent nullifiers), the lifecycle of shielded notes, and the verification
//! of the zero-knowledge proofs that gate every state transition. Every
//! operation validates first and mutates afterwards: on an error nothing has
//! changed.

use vstd::prelude::*;

pub mod bytes;
pub mod errors;
pub mod instructions;
pub mod state;
pub mod zk;

verus! {

/// Proof types for selective disclosure.
#[derive(Clone, Copy, Debug, PartialEq, Eq, Structural)]
pub enum ProofType {
    /// Prove that a balance lies within a range.
    RangeProof,
    /// Prove ownership without revealing an amount.
    OwnershipProof,
    /// Prove compliance with a limit.
    ComplianceProof,
    /// Custom proof for specific requirements.
    Custom,
}

impl ProofType {
    /// The tag under which a disclosure record stores the proof type.
    pub open spec fn spec_tag(self) -> u8 {
        match self {
            ProofType::RangeProof => 0,
            ProofType::OwnershipProof => 1,
            ProofType::ComplianceProof => 2,
            ProofType::Custom => 3,
        }
    }

    /// The tag under which a disclosure record stores the proof type.
    #[verifier::when_used_as_spec(spec_tag)]
    pub fn tag(self) -> (t: u8)
        ensures
            t == self.spec_tag(),
    {
        match self {
            ProofType::RangeProof => 0,
            ProofType::OwnershipProof => 1,
            ProofType::ComplianceProof => 2,
            ProofType::Custom => 3,
        }
    }
}

} // verus!
