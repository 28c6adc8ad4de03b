//! Failure conditions of the protocol.
//!
//! Every check that can fail names exactly one of these conditions, so a
//! caller can branch on the cause.

use vstd::prelude::*;

verus! {

/// The discrete conditions under which an operation is refused.
#[derive(Clone, Copy, Debug, PartialEq, Eq, Structural)]
pub enum AshbornError {
    // Vault
    /// Vault already initialized for this owner.
    VaultAlreadyExists,
    /// Vault not found or not initialized.
    VaultNotFound,
    /// The caller is not the vault owner.
    UnauthorizedVaultAccess,
    /// Vault is locked and cannot perform operations.
    VaultLocked,
    // Shielding
    /// Invalid commitment format.
    InvalidCommitment,
    /// Amount must be greater than zero.
    ZeroAmount,
    /// Amount exceeds the maximum allowed for a single shield.
    AmountTooLarge,
    /// Insufficient balance for this operation.
    InsufficientBalance,
    /// Deposit amount does not match the commitment.
    CommitmentMismatch,
    // Transfer
    /// The nullifier has already been used: a double-spend attempt.
    NullifierAlreadyUsed,
    /// Invalid nullifier format.
    InvalidNullifier,
    /// Invalid transfer proof.
    InvalidTransferProof,
    /// Proof verification failed.
    ProofVerificationFailed,
    /// Recipient commitment is invalid.
    InvalidRecipientCommitment,
    // Disclosure
    /// Invalid range proof.
    InvalidRangeProof,
    /// Range minimum exceeds the maximum.
    InvalidRange,
    /// Proof type not supported.
    UnsupportedProofType,
    /// Proof has expired.
    ProofExpired,
    /// Compliance proof already exists.
    ProofAlreadyExists,
    // Protocol
    /// Protocol is currently paused.
    ProtocolPaused,
    /// Unauthorized access to vault.
    Unauthorized,
    /// The amount is not one of the fixed denominations.
    InvalidDenomination,
    /// The note has already been spent.
    NoteAlreadySpent,
    /// The claimed Merkle root is neither current nor recent.
    InvalidMerkleRoot,
    /// Invalid ownership proof.
    InvalidOwnershipProof,
    /// Custom proof verification failed.
    CustomProofFailed,
    /// The privacy delay of the note has not yet passed.
    TooSoonToUnshield,
    /// Invalid withdraw proof.
    InvalidWithdrawProof,
    /// Invalid admin authority.
    InvalidAdmin,
    /// Fee exceeds the maximum allowed.
    FeeTooHigh,
    /// Invalid fee recipient.
    InvalidFeeRecipient,
    // Crypto
    /// Hash computation failed.
    HashError,
    /// Invalid signature.
    InvalidSignature,
    /// Encryption failed.
    EncryptionError,
    /// Decryption failed.
    DecryptionError,
    /// Invalid public key format.
    InvalidPublicKey,
    // Integration
    /// ShadowWire integration error.
    ShadowWireError,
    /// Privacy Cash integration error.
    PrivacyCashError,
    /// Range Compliance integration error.
    RangeComplianceError,
    /// External SDK call failed.
    ExternalSdkError,
    // Accounts and arithmetic
    /// The sibling path does not fit the tree it is offered for.
    InvalidMerkleSiblings,
    /// The token account belongs to another mint.
    InvalidMint,
    /// An arithmetic result does not fit its type.
    Overflow,
}

} // verus!
