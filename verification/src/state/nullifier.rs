//! The record of one spent nullifier.

use vstd::prelude::*;

verus! {

/// A spent nullifier: that this record exists says that the note behind the
/// nullifier has been spent.
#[derive(Clone, Copy, Debug, PartialEq, Eq)]
pub struct Nullifier {
    /// The nullifier (32 bytes).
    pub hash: [u8; 32],
    /// The time at which it was spent.
    pub spent_at: i64,
    /// The bump seed of the record's address.
    pub bump: u8,
}

impl Nullifier {
    /// Size of a stored record in bytes.
    pub const SIZE: usize = 8 + 32 + 8 + 1;
}

} // verus!
