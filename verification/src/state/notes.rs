//! Shielded notes, their denominations, and disclosure records.

use vstd::prelude::*;

verus! {

/// A shielded note: an encrypted, UTXO-style claim on the pool.
///
/// A note is created unspent by a shield or as the change of a transfer. It
/// becomes spent once, by a transfer or an unshield, and never unspent
/// again.
#[derive(Clone, Copy, Debug, PartialEq, Eq)]
pub struct ShieldedNote {
    /// The vault this note belongs to.
    pub vault: [u8; 32],
    /// The commitment `C = H(pad(amount), blinding)`.
    pub commitment: [u8; 32],
    /// The encrypted amount.
    pub encrypted_amount: [u8; 48],
    /// The index of the note in the commitment tree.
    pub index: u64,
    /// The denomination tier.
    pub denomination_tier: u8,
    /// Whether this note has been spent.
    pub spent: bool,
    /// The time of the note's creation.
    pub created_at: i64,
    /// The earliest time at which the note may be unshielded.
    pub unshield_after: i64,
    /// The bump seed of the note's address.
    pub bump: u8,
}

impl ShieldedNote {
    /// Size of a stored note in bytes.
    pub const SIZE: usize = 8 + 32 + 32 + 48 + 8 + 1 + 1 + 8 + 8 + 1;
}

/// The fixed amounts in which value is shielded: uniform amounts leave no
/// trace of who deposited what.
#[derive(Clone, Copy, Debug, PartialEq, Eq, Structural)]
pub enum Denomination {
    /// 0.1 SOL
    Tier1,
    /// 1 SOL
    Tier2,
    /// 10 SOL
    Tier3,
    /// 100 SOL
    Tier4,
    /// 1000 SOL
    Tier5,
}

impl Denomination {
    /// The amounts of the five tiers, in lamports.
    pub const VALUES: [u64; 5] = [
        100_000_000,
        1_000_000_000,
        10_000_000_000,
        100_000_000_000,
        1_000_000_000_000,
    ];

    /// The number of the tier, from 0 for the smallest amount.
    pub open spec fn spec_tier(self) -> u8 {
        match self {
            Denomination::Tier1 => 0,
            Denomination::Tier2 => 1,
            Denomination::Tier3 => 2,
            Denomination::Tier4 => 3,
            Denomination::Tier5 => 4,
        }
    }

    /// The amount of the tier, in lamports.
    pub open spec fn spec_to_amount(&self) -> u64 {
        Self::VALUES[self.spec_tier() as int]
    }

    /// The denomination of `amount`, if it is one of the fixed amounts.
    pub open spec fn of(amount: u64) -> Option<Denomination> {
        if amount == 100_000_000 {
            Some(Denomination::Tier1)
        } else if amount == 1_000_000_000 {
            Some(Denomination::Tier2)
        } else if amount == 10_000_000_000 {
            Some(Denomination::Tier3)
        } else if amount == 100_000_000_000 {
            Some(Denomination::Tier4)
        } else if amount == 1_000_000_000_000 {
            Some(Denomination::Tier5)
        } else {
            None
        }
    }

    /// The denomination of `amount`; none for an amount that is not one of
    /// the fixed amounts.
    pub fn from_amount(amount: u64) -> (denomination: Option<Self>)
        ensures
            denomination == Self::of(amount),
            match denomination {
                Some(tier) => tier.spec_to_amount() == amount,
                None => forall|tier: Denomination| tier.spec_to_amount() != amount,
            },
    {
        match amount {
            100_000_000 => Some(Self::Tier1),
            1_000_000_000 => Some(Self::Tier2),
            10_000_000_000 => Some(Self::Tier3),
            100_000_000_000 => Some(Self::Tier4),
            1_000_000_000_000 => Some(Self::Tier5),
            _ => None,
        }
    }

    /// The amount of the tier, in lamports.
    #[verifier::when_used_as_spec(spec_to_amount)]
    pub fn to_amount(&self) -> (amount: u64)
        ensures
            amount == self.spec_to_amount(),
            Self::of(amount) == Some(*self),
    {
        Self::VALUES[self.tier() as usize]
    }

    /// The number of the tier, from 0 for the smallest amount.
    #[verifier::when_used_as_spec(spec_tier)]
    pub fn tier(self) -> (tier: u8)
        ensures
            tier == self.spec_tier(),
            tier < 5,
    {
        match self {
            Denomination::Tier1 => 0,
            Denomination::Tier2 => 1,
            Denomination::Tier3 => 2,
            Denomination::Tier4 => 3,
            Denomination::Tier5 => 4,
        }
    }
}

/// A disclosure record: the outcome of one selective reveal.
///
/// A record is written once and not changed afterwards. Its expiry is a
/// note for those who read it; nothing here enforces it.
#[derive(Debug, PartialEq, Eq)]
pub struct ComplianceProof {
    /// The vault this proof is for.
    pub vault: [u8; 32],
    /// The tag of the proof type.
    pub proof_type: u8,
    /// The proof as it was submitted.
    pub proof_data: Vec<u8>,
    /// The lower bound of the disclosed range.
    pub range_min: u64,
    /// The upper bound of the disclosed range.
    pub range_max: u64,
    /// Whether the proof was verified.
    pub verified: bool,
    /// The time at which the record expires.
    pub expires_at: i64,
    /// The bump seed of the record's address.
    pub bump: u8,
}

impl ComplianceProof {
    /// Size of a stored record without its proof, in bytes.
    pub const BASE_SIZE: usize = 8 + 32 + 1 + 4 + 8 + 8 + 1 + 8 + 1;

    /// Size of a stored record with a proof of `proof_len` bytes.
    pub fn size(proof_len: usize) -> (bytes: usize)
        requires
            Self::BASE_SIZE + proof_len <= usize::MAX,
        ensures
            bytes == Self::BASE_SIZE + proof_len,
    {
        Self::BASE_SIZE + proof_len
    }
}

} // verus!
