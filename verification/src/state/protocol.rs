//! Protocol-wide configuration.

use vstd::prelude::*;

verus! {

/// Global protocol configuration. An operation reads the snapshot it is
/// handed and never changes it.
#[derive(Clone, Copy, Debug, PartialEq, Eq)]
pub struct ProtocolState {
    /// The protocol admin.
    pub admin: [u8; 32],
    /// Total value locked.
    pub total_shielded: u64,
    /// Total number of transactions.
    pub tx_count: u64,
    /// The protocol fee in basis points.
    pub fee_bps: u16,
    /// The recipient of fees.
    pub fee_recipient: [u8; 32],
    /// Whether the protocol is paused.
    pub paused: bool,
    /// The address of the commitment tree.
    pub commitment_tree: [u8; 32],
    /// The address of the nullifier tree.
    pub nullifier_tree: [u8; 32],
    /// The minimum privacy delay in seconds.
    pub min_privacy_delay: i64,
    /// The bump seed of the state's address.
    pub bump: u8,
}

impl ProtocolState {
    /// Size of the stored state in bytes.
    pub const SIZE: usize = 8 + 32 + 8 + 8 + 2 + 32 + 1 + 32 + 32 + 8 + 1;

    /// Default minimum delay: 24 hours.
    pub const DEFAULT_DELAY: i64 = 24 * 60 * 60;
}

} // verus!
