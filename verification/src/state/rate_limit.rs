//! Rate limiting of deposits.
//!
//! A counter per epoch keeps deposits from filling the commitment tree.

use vstd::prelude::*;

verus! {

/// The state of the deposit rate limit.
#[derive(Clone, Copy, Debug, PartialEq, Eq)]
pub struct RateLimitState {
    /// The authority that can update the limits.
    pub authority: [u8; 32],
    /// The current epoch, counted in slots.
    pub current_epoch: u64,
    /// The number of deposits in the current epoch.
    pub deposits_this_epoch: u64,
    /// The maximum number of deposits in one epoch.
    pub max_deposits_per_epoch: u64,
    /// The duration of an epoch in slots.
    pub epoch_duration_slots: u64,
    /// The number of deposits of all time.
    pub total_deposits: u64,
    /// The bump seed of the state's address.
    pub bump: u8,
}

/// Why a deposit is refused.
#[derive(Clone, Copy, Debug, PartialEq, Eq, Structural)]
pub enum RateLimitError {
    /// The rate limit is exceeded; the next epoch admits deposits again.
    RateLimitExceeded,
}

impl RateLimitState {
    /// Size of the stored state in bytes.
    pub const SIZE: usize = 8 + 32 + 8 + 8 + 8 + 8 + 8 + 1;

    /// Default maximum of deposits per epoch.
    pub const DEFAULT_MAX_DEPOSITS: u64 = 1000;

    /// Default epoch duration in slots: about ten minutes at 400 ms a slot.
    pub const DEFAULT_EPOCH_SLOTS: u64 = 1500;

    /// The epoch that `current_slot` falls into.
    pub open spec fn epoch_of(&self, current_slot: u64) -> int {
        current_slot as int / self.epoch_duration_slots as int
    }

    /// The deposits that count against the limit at `current_slot`: none in
    /// an epoch that has only just begun.
    pub open spec fn deposits_at(&self, current_slot: u64) -> int {
        if self.epoch_of(current_slot) > self.current_epoch {
            0
        } else {
            self.deposits_this_epoch as int
        }
    }

    /// Whether a deposit at `current_slot` would be admitted: a new epoch
    /// has begun, or the current one has room.
    pub open spec fn spec_can_deposit(&self, current_slot: u64) -> bool {
        self.epoch_of(current_slot) > self.current_epoch || self.deposits_this_epoch
            < self.max_deposits_per_epoch
    }

    /// Initialize the rate limit state with the default limits.
    pub fn initialize(&mut self, authority: [u8; 32], bump: u8)
        ensures
            *final(self) == (RateLimitState {
                authority,
                current_epoch: 0,
                deposits_this_epoch: 0,
                max_deposits_per_epoch: Self::DEFAULT_MAX_DEPOSITS,
                epoch_duration_slots: Self::DEFAULT_EPOCH_SLOTS,
                total_deposits: 0,
                bump,
            }),
    {
        self.authority = authority;
        self.current_epoch = 0;
        self.deposits_this_epoch = 0;
        self.max_deposits_per_epoch = Self::DEFAULT_MAX_DEPOSITS;
        self.epoch_duration_slots = Self::DEFAULT_EPOCH_SLOTS;
        self.total_deposits = 0;
        self.bump = bump;
    }

    /// Check whether a deposit is allowed, and record it if it is.
    ///
    /// A deposit in a later epoch than the current one starts that epoch's
    /// count anew. A deposit that the limit refuses leaves the state as it
    /// was.
    pub fn record_deposit(&mut self, current_slot: u64) -> (result: Result<(), RateLimitError>)
        requires
            old(self).epoch_duration_slots > 0,
            old(self).total_deposits < u64::MAX,
        ensures
            old(self).deposits_at(current_slot) >= old(self).max_deposits_per_epoch ==> result
                == Err::<(), RateLimitError>(RateLimitError::RateLimitExceeded) && *final(self)
                == *old(self),
            old(self).deposits_at(current_slot) < old(self).max_deposits_per_epoch ==> result
                == Ok::<(), RateLimitError>(()) && *final(self) == (RateLimitState {
                current_epoch: if old(self).epoch_of(current_slot) > old(self).current_epoch {
                    old(self).epoch_of(current_slot) as u64
                } else {
                    old(self).current_epoch
                },
                deposits_this_epoch: (old(self).deposits_at(current_slot) + 1) as u64,
                total_deposits: (old(self).total_deposits + 1) as u64,
                ..*old(self)
            }),
    {
        // The epoch of the slot.
        let epoch = current_slot / self.epoch_duration_slots;

        // A new epoch starts with no deposits.
        let new_epoch = epoch > self.current_epoch;
        let deposits: u64 = if new_epoch {
            0
        } else {
            self.deposits_this_epoch
        };

        // Check the rate limit.
        if deposits >= self.max_deposits_per_epoch {
            return Err(RateLimitError::RateLimitExceeded);
        }
        // Record the deposit.

        if new_epoch {
            self.current_epoch = epoch;
        }
        self.deposits_this_epoch = deposits + 1;
        self.total_deposits += 1;

        Ok(())
    }

    /// Check whether a deposit would be allowed, without recording it.
    #[verifier::when_used_as_spec(spec_can_deposit)]
    pub fn can_deposit(&self, current_slot: u64) -> (allowed: bool)
        requires
            self.epoch_duration_slots > 0,
        ensures
            allowed == self.spec_can_deposit(current_slot),
    {
        let epoch = current_slot / self.epoch_duration_slots;

        if epoch > self.current_epoch {
            // A new epoch: the limit is reset.
            true
        } else {
            self.deposits_this_epoch < self.max_deposits_per_epoch
        }
    }

    /// Update the rate limit configuration.
    pub fn update_config(&mut self, max_deposits: u64, epoch_slots: u64)
        ensures
            *final(self) == (RateLimitState {
                max_deposits_per_epoch: max_deposits,
                epoch_duration_slots: epoch_slots,
                ..*old(self)
            }),
    {
        self.max_deposits_per_epoch = max_deposits;
        self.epoch_duration_slots = epoch_slots;
    }
}

} // verus!
