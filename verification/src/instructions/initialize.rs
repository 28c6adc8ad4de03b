//! Initialize a shadow vault.

use vstd::prelude::*;
use crate::bytes::zero_array;
use crate::state::vault::ShadowVault;

verus! {

/// The vault of `owner` as it is when it was created at the time `now`.
pub open spec fn fresh_vault(owner: [u8; 32], bump: u8, now: i64) -> ShadowVault {
    ShadowVault {
        owner,
        bump,
        note_count: 0,
        view_key_hash: zero_array::<32>(),
        encrypted_nullifier_secret: zero_array::<48>(),
        encrypted_balance_hint: zero_array::<48>(),
        created_at: now,
        last_activity: now,
        _reserved: zero_array::<64>(),
    }
}

/// Initialize a new shadow vault for `owner`: it holds no notes, its keys
/// are not yet set, and it was created and last used at the time `now`.
pub fn handler(owner: [u8; 32], bump: u8, now: i64) -> (vault: ShadowVault)
    ensures
        vault == fresh_vault(owner, bump, now),
{
    ShadowVault {
        owner,
        bump,
        note_count: 0,
        view_key_hash: [0u8; 32],
        encrypted_nullifier_secret: [0u8; 48],
        encrypted_balance_hint: [0u8; 48],
        created_at: now,
        last_activity: now,
        _reserved: [0u8; 64],
    }
}

} // verus!
