//! Selective reveal: prove a bounded claim about a hidden balance and store
//! the outcome as a disclosure record.

use vstd::prelude::*;
use crate::errors::AshbornError;
use crate::state::notes::ComplianceProof;
use crate::state::vault::ShadowVault;
use crate::zk::groth16::{range_verdict, verify_range_proof};
use crate::ProofType;

verus! {

/// The least number of bytes of an ownership proof.
pub const MIN_OWNERSHIP_PROOF_LENGTH: usize = 64;

/// The least number of bytes of a custom proof.
pub const MIN_CUSTOM_PROOF_LENGTH: usize = 32;

/// The time for which a disclosure record is good: 30 days, in seconds.
pub const DISCLOSURE_LIFETIME: i64 = 30 * 24 * 60 * 60;

/// The verdict on the proof of a reveal, by the type of the proof: range
/// and compliance proofs are verified as range proofs for the commitment and
/// the bounds; ownership and custom proofs need their minimum length.
pub open spec fn reveal_verdict(
    proof_type: ProofType,
    range_min: u64,
    range_max: u64,
    proof_data: Seq<u8>,
    commitment: Seq<u8>,
) -> Result<bool, AshbornError> {
    match proof_type {
        ProofType::RangeProof => range_verdict(proof_data, commitment, range_min, range_max),
        ProofType::OwnershipProof => if proof_data.len() >= MIN_OWNERSHIP_PROOF_LENGTH {
            Ok(true)
        } else {
            Err(AshbornError::InvalidOwnershipProof)
        },
        ProofType::ComplianceProof => range_verdict(proof_data, commitment, range_min, range_max),
        ProofType::Custom => if proof_data.len() >= MIN_CUSTOM_PROOF_LENGTH {
            Ok(true)
        } else {
            Err(AshbornError::CustomProofFailed)
        },
    }
}

/// Why a reveal is refused, if it is: the range is empty, or the proof does
/// not verify.
pub open spec fn reveal_refusal(
    proof_type: ProofType,
    range_min: u64,
    range_max: u64,
    proof_data: Seq<u8>,
    commitment: Seq<u8>,
) -> Option<AshbornError> {
    if range_min > range_max {
        Some(AshbornError::InvalidRange)
    } else {
        match reveal_verdict(proof_type, range_min, range_max, proof_data, commitment) {
            Err(e) => Some(e),
            Ok(false) => Some(AshbornError::InvalidRangeProof),
            Ok(true) => None,
        }
    }
}

/// Generate a selective disclosure.
///
/// On success the record of the disclosure is returned: it holds the proof
/// as it was submitted, is marked verified, and expires 30 days after
/// `now`.
pub fn handler(
    vault: &ShadowVault,
    vault_key: [u8; 32],
    proof_type: ProofType,
    range_min: u64,
    range_max: u64,
    proof_data: Vec<u8>,
    commitment: [u8; 32],
    now: i64,
    record_bump: u8,
) -> (result: Result<ComplianceProof, AshbornError>)
    requires
        now + DISCLOSURE_LIFETIME <= i64::MAX,
    ensures
        match reveal_refusal(proof_type, range_min, range_max, proof_data@, commitment@) {
            Some(e) => result == Err::<ComplianceProof, AshbornError>(e),
            None => {
                &&& result matches Ok(record)
                &&& record.vault == vault_key
                &&& record.proof_type == proof_type.spec_tag()
                &&& record.proof_data@ == proof_data@
                &&& record.range_min == range_min
                &&& record.range_max == range_max
                &&& record.verified
                &&& record.expires_at == now + DISCLOSURE_LIFETIME
                &&& record.bump == record_bump
            },
        },
{
    // 1. The bounds must form a range.
    if range_min > range_max {
        return Err(AshbornError::InvalidRange);
    }
    // 2. Verify the proof according to its type.

    let verdict = match proof_type {
        ProofType::RangeProof => verify_range_proof(
            proof_data.as_slice(),
            &commitment,
            range_min,
            range_max,
        ),
        ProofType::OwnershipProof => verify_ownership_proof(proof_data.as_slice(), vault.owner),
        ProofType::ComplianceProof => verify_range_proof(
            proof_data.as_slice(),
            &commitment,
            range_min,
            range_max,
        ),
        ProofType::Custom => verify_custom_proof(proof_data.as_slice()),
    };
    match verdict {
        Ok(true) => {},
        Ok(false) => {
            return Err(AshbornError::InvalidRangeProof);
        },
        Err(e) => {
            return Err(e);
        },
    }

    // 3. The record of the disclosure.
    Ok(
        ComplianceProof {
            vault: vault_key,
            proof_type: proof_type.tag(),
            proof_data,
            range_min,
            range_max,
            verified: true,
            expires_at: now + DISCLOSURE_LIFETIME,
            bump: record_bump,
        },
    )
}

/// Verify an ownership proof: it must hold a claim of at least 64 bytes.
/// The owner takes no part in the check.
#[allow(unused_variables)]
pub fn verify_ownership_proof(proof: &[u8], owner: [u8; 32]) -> (result: Result<bool, AshbornError>)
    ensures
        proof@.len() >= MIN_OWNERSHIP_PROOF_LENGTH ==> result == Ok::<bool, AshbornError>(true),
        proof@.len() < MIN_OWNERSHIP_PROOF_LENGTH ==> result == Err::<bool, AshbornError>(
            AshbornError::InvalidOwnershipProof,
        ),
{
    if proof.len() < MIN_OWNERSHIP_PROOF_LENGTH {
        return Err(AshbornError::InvalidOwnershipProof);
    }
    Ok(true)
}

/// Verify a custom proof: it must hold at least 32 bytes.
pub fn verify_custom_proof(proof: &[u8]) -> (result: Result<bool, AshbornError>)
    ensures
        proof@.len() >= MIN_CUSTOM_PROOF_LENGTH ==> result == Ok::<bool, AshbornError>(true),
        proof@.len() < MIN_CUSTOM_PROOF_LENGTH ==> result == Err::<bool, AshbornError>(
            AshbornError::CustomProofFailed,
        ),
{
    if proof.len() < MIN_CUSTOM_PROOF_LENGTH {
        return Err(AshbornError::CustomProofFailed);
    }
    Ok(true)
}

} // verus!
