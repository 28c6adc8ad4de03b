// Notes, denominations, records and the deposit rate limit.

use ashborn::instructions::initialize;
use ashborn::state::{
    ComplianceProof, Denomination, Nullifier, ProtocolState, RateLimitError, RateLimitState,
    ShadowVault, ShieldedNote,
};
use ashborn::ProofType;

const DENOMINATIONS: [u64; 5] = [
    100_000_000,       // 0.1 SOL
    1_000_000_000,     // 1 SOL
    10_000_000_000,    // 10 SOL
    100_000_000_000,   // 100 SOL
    1_000_000_000_000, // 1000 SOL
];

const VAULT_SIZE: usize = 8 + 32 + 1 + 8 + 4 + 32 + 48 + 8 + 8 + 64;

fn rate_limit(max_deposits_per_epoch: u64, epoch_duration_slots: u64) -> RateLimitState {
    RateLimitState {
        authority: [0u8; 32],
        current_epoch: 0,
        deposits_this_epoch: 0,
        max_deposits_per_epoch,
        epoch_duration_slots,
        total_deposits: 0,
        bump: 0,
    }
}

#[test]
fn test_rate_limit() {
    let mut state = RateLimitState {
        authority: [0u8; 32],
        current_epoch: 0,
        deposits_this_epoch: 0,
        max_deposits_per_epoch: 2,
        epoch_duration_slots: 100,
        total_deposits: 0,
        bump: 0,
    };

    // Should allow first deposit
    assert!(state.can_deposit(50));

    // Simulate recording
    state.deposits_this_epoch = 2;

    // Should reject (at limit)
    assert!(!state.can_deposit(50));

    // Should allow in next epoch
    assert!(state.can_deposit(150));
}

#[test]
fn test_valid_denominations() {
    for denom in DENOMINATIONS.iter() {
        assert!(DENOMINATIONS.contains(denom));
        assert!(Denomination::from_amount(*denom).is_some());
    }
    assert_eq!(Denomination::VALUES, DENOMINATIONS);
}

#[test]
fn test_invalid_denomination() {
    let invalid = 123_456_789u64;
    assert!(!DENOMINATIONS.contains(&invalid));
    assert_eq!(Denomination::from_amount(invalid), None);
}

#[test]
fn test_denomination_tier_mapping() {
    assert_eq!(DENOMINATIONS[0], 100_000_000);
    assert_eq!(DENOMINATIONS[1], 1_000_000_000);
    assert_eq!(DENOMINATIONS[2], 10_000_000_000);

    assert_eq!(Denomination::Tier1.to_amount(), 100_000_000);
    assert_eq!(Denomination::Tier2.to_amount(), 1_000_000_000);
    assert_eq!(Denomination::Tier3.to_amount(), 10_000_000_000);
}

#[test]
fn test_vault_size() {
    // Should be fixed size for rent calculation
    assert_eq!(VAULT_SIZE, 213);
}

#[test]
fn test_vault_balance_update() {
    let mut balance = 0u64;

    // Shield
    balance += 1_000_000_000;
    assert_eq!(balance, 1_000_000_000);

    // Transfer out
    balance -= 500_000_000;
    assert_eq!(balance, 500_000_000);

    // Unshield
    balance -= 500_000_000;
    assert_eq!(balance, 0);
}

#[test]
fn test_note_count_update() {
    let mut count = 0u32;

    // Shield creates note
    count += 1;
    assert_eq!(count, 1);

    // Transfer consumes and creates
    count -= 1;
    count += 2; // change + recipient
    assert_eq!(count, 2);
}

#[test]
fn test_vault_pda_seed() {
    let seed = b"shadow_vault";
    assert_eq!(seed.len(), 12);
}

#[test]
fn test_note_pda_seed() {
    let seed = b"shielded_note";
    assert_eq!(seed.len(), 13);
}

#[test]
fn test_nullifier_pda_seed() {
    let seed = b"nullifier";
    assert_eq!(seed.len(), 9);
}

#[test]
fn every_denomination_maps_to_its_tier_and_back() {
    let tiers = [
        Denomination::Tier1,
        Denomination::Tier2,
        Denomination::Tier3,
        Denomination::Tier4,
        Denomination::Tier5,
    ];
    for (number, tier) in tiers.iter().enumerate() {
        assert_eq!(tier.tier() as usize, number);
        assert_eq!(tier.to_amount(), DENOMINATIONS[number]);
        assert_eq!(Denomination::from_amount(DENOMINATIONS[number]), Some(*tier));
    }
    assert_eq!(Denomination::Tier4.to_amount(), 100_000_000_000);
    assert_eq!(Denomination::Tier5.to_amount(), 1_000_000_000_000);
}

#[test]
fn amounts_next_to_a_denomination_are_none() {
    for amount in DENOMINATIONS {
        assert_eq!(Denomination::from_amount(amount - 1), None);
        assert_eq!(Denomination::from_amount(amount + 1), None);
    }
    assert_eq!(Denomination::from_amount(0), None);
    assert_eq!(Denomination::from_amount(10_000_000), None);
    assert_eq!(Denomination::from_amount(10_000_000_000_000), None);
    assert_eq!(Denomination::from_amount(u64::MAX), None);
}

#[test]
fn stored_sizes_add_up() {
    assert_eq!(ShieldedNote::SIZE, 147);
    assert_eq!(ShadowVault::SIZE, 253);
    assert_eq!(Nullifier::SIZE, 49);
    assert_eq!(ProtocolState::SIZE, 164);
    assert_eq!(RateLimitState::SIZE, 81);
    assert_eq!(ComplianceProof::BASE_SIZE, 71);
    assert_eq!(ComplianceProof::size(0), 71);
    assert_eq!(ComplianceProof::size(256), 327);
}

#[test]
fn default_delay_is_a_day() {
    assert_eq!(ProtocolState::DEFAULT_DELAY, 86_400);
}

#[test]
fn proof_types_have_their_tags() {
    assert_eq!(ProofType::RangeProof.tag(), 0);
    assert_eq!(ProofType::OwnershipProof.tag(), 1);
    assert_eq!(ProofType::ComplianceProof.tag(), 2);
    assert_eq!(ProofType::Custom.tag(), 3);
}

#[test]
fn new_vault_is_empty() {
    let vault = initialize::handler([7u8; 32], 255, 1_700_000_000);
    assert_eq!(
        vault,
        ShadowVault {
            owner: [7u8; 32],
            bump: 255,
            note_count: 0,
            view_key_hash: [0u8; 32],
            encrypted_nullifier_secret: [0u8; 48],
            encrypted_balance_hint: [0u8; 48],
            created_at: 1_700_000_000,
            last_activity: 1_700_000_000,
            _reserved: [0u8; 64],
        }
    );
}

#[test]
fn rate_limit_initializes_with_defaults() {
    let mut state = rate_limit(1, 1);
    state.current_epoch = 9;
    state.deposits_this_epoch = 9;
    state.total_deposits = 9;
    state.initialize([3u8; 32], 4);
    assert_eq!(
        state,
        RateLimitState {
            authority: [3u8; 32],
            current_epoch: 0,
            deposits_this_epoch: 0,
            max_deposits_per_epoch: 1000,
            epoch_duration_slots: 1500,
            total_deposits: 0,
            bump: 4,
        }
    );
    assert_eq!(RateLimitState::DEFAULT_MAX_DEPOSITS, 1000);
    assert_eq!(RateLimitState::DEFAULT_EPOCH_SLOTS, 1500);
}

#[test]
fn rate_limit_counts_deposits_of_an_epoch() {
    let mut state = rate_limit(2, 100);
    assert_eq!(state.record_deposit(10), Ok(()));
    assert_eq!(state.record_deposit(99), Ok(()));
    assert_eq!(state.deposits_this_epoch, 2);
    assert_eq!(state.total_deposits, 2);
    assert_eq!(state.current_epoch, 0);

    let before = state;
    assert_eq!(state.record_deposit(50), Err(RateLimitError::RateLimitExceeded));
    assert_eq!(state, before);
    assert!(!state.can_deposit(50));
}

#[test]
fn rate_limit_starts_anew_in_a_later_epoch() {
    let mut state = rate_limit(2, 100);
    state.record_deposit(10).unwrap();
    state.record_deposit(20).unwrap();
    assert!(state.can_deposit(100));
    assert_eq!(state.record_deposit(100), Ok(()));
    assert_eq!(state.current_epoch, 1);
    assert_eq!(state.deposits_this_epoch, 1);
    assert_eq!(state.total_deposits, 3);

    // A slot of an earlier epoch counts in the current one.
    assert_eq!(state.record_deposit(5), Ok(()));
    assert_eq!(state.current_epoch, 1);
    assert_eq!(state.deposits_this_epoch, 2);
    assert_eq!(state.record_deposit(5), Err(RateLimitError::RateLimitExceeded));

    // Epochs may be skipped.
    assert_eq!(state.record_deposit(1_000), Ok(()));
    assert_eq!(state.current_epoch, 10);
    assert_eq!(state.deposits_this_epoch, 1);
    assert_eq!(state.total_deposits, 5);
}

#[test]
fn rate_limit_of_zero_admits_nothing() {
    let mut state = rate_limit(0, 100);
    let before = state;
    assert_eq!(state.record_deposit(0), Err(RateLimitError::RateLimitExceeded));
    assert_eq!(state.record_deposit(500), Err(RateLimitError::RateLimitExceeded));
    assert_eq!(state, before);
}

#[test]
fn rate_limit_configuration_is_updated() {
    let mut state = rate_limit(2, 100);
    state.record_deposit(10).unwrap();
    state.update_config(5, 10);
    assert_eq!(state.max_deposits_per_epoch, 5);
    assert_eq!(state.epoch_duration_slots, 10);
    assert_eq!(state.deposits_this_epoch, 1);
    assert_eq!(state.total_deposits, 1);
    assert_eq!(state.current_epoch, 0);
    assert_eq!(state.authority, [0u8; 32]);
}
