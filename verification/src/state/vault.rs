//! The shadow vault of one owner.

use vstd::prelude::*;

verus! {

/// A shadow vault: what the ledger keeps for one owner.
///
/// The vault holds no balance. An owner learns the balance by decrypting
/// the notes; the ledger does not reveal it.
#[derive(Clone, Copy, Debug, PartialEq, Eq)]
pub struct ShadowVault {
    /// The owner's public key.
    pub owner: [u8; 32],
    /// The bump seed of the vault's address.
    pub bump: u8,
    /// The number of shielded notes, from which note addresses derive.
    pub note_count: u32,
    /// The commitment to the view key, for optional disclosure.
    pub view_key_hash: [u8; 32],
    /// The nullifier secret, encrypted with the owner's key.
    pub encrypted_nullifier_secret: [u8; 48],
    /// An encrypted hint of the balance; a cache, not an authority.
    pub encrypted_balance_hint: [u8; 48],
    /// The time of the vault's creation.
    pub created_at: i64,
    /// The time of the last activity.
    pub last_activity: i64,
    /// Reserved for later use.
    pub _reserved: [u8; 64],
}

impl ShadowVault {
    /// Size of a stored vault in bytes.
    pub const SIZE: usize = 8 + 32 + 1 + 4 + 32 + 48 + 48 + 8 + 8 + 64;
}

} // verus!
