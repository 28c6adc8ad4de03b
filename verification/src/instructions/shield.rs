//! Shield: deposit a fixed denomination and receive a note for it.

use vstd::prelude::*;
use crate::bytes::{rows, zero_array};
use crate::errors::AshbornError;
use crate::state::merkle::{CommitmentTree, TREE_DEPTH};
use crate::state::notes::{Denomination, ShieldedNote};
use crate::state::protocol::ProtocolState;
use crate::state::vault::ShadowVault;
use crate::zk::groth16::{shield_verdict, verify_shield_proof};

verus! {

/// Why a shield is refused, if it is: the amount is not a denomination, or
/// the proof does not verify for the amount and the commitment.
pub open spec fn shield_refusal(amount: u64, commitment: Seq<u8>, proof: Seq<u8>) -> Option<
    AshbornError,
> {
    if Denomination::of(amount) is None {
        Some(AshbornError::InvalidDenomination)
    } else {
        match shield_verdict(proof, amount, commitment) {
            Err(e) => Some(e),
            Ok(false) => Some(AshbornError::InvalidCommitment),
            Ok(true) => None,
        }
    }
}

/// The unspent note that comes into being at the time `now` for the
/// commitment at `index` of the commitment tree. It can be unshielded from
/// 24 hours after `now` on.
pub open spec fn minted_note(
    vault_key: [u8; 32],
    commitment: [u8; 32],
    index: u64,
    denomination_tier: u8,
    now: i64,
    bump: u8,
) -> ShieldedNote {
    ShieldedNote {
        vault: vault_key,
        commitment,
        encrypted_amount: zero_array::<48>(),
        index,
        denomination_tier,
        spent: false,
        created_at: now,
        unshield_after: (now + ProtocolState::DEFAULT_DELAY) as i64,
        bump,
    }
}

/// The vault after one more note was created for it at the time `now`.
pub open spec fn vault_with_new_note(vault: ShadowVault, now: i64) -> ShadowVault {
    ShadowVault { note_count: (vault.note_count + 1) as u32, last_activity: now, ..vault }
}

/// Make the note of the given fields.
pub fn mint_note(
    vault_key: [u8; 32],
    commitment: [u8; 32],
    index: u64,
    denomination_tier: u8,
    now: i64,
    bump: u8,
) -> (note: ShieldedNote)
    requires
        now + ProtocolState::DEFAULT_DELAY <= i64::MAX,
    ensures
        note == minted_note(vault_key, commitment, index, denomination_tier, now, bump),
{
    ShieldedNote {
        vault: vault_key,
        commitment,
        encrypted_amount: [0u8; 48],
        index,
        denomination_tier,
        spent: false,
        created_at: now,
        unshield_after: now + ProtocolState::DEFAULT_DELAY,
        bump,
    }
}

/// Shield `amount` under `commitment`.
///
/// The amount must be one of the fixed denominations and the proof must
/// verify for the amount and the commitment. Then the commitment goes into
/// the commitment tree along `merkle_siblings`, which are taken as the
/// caller gives them, a new unspent note is returned for it, and the vault
/// counts one more note. A shield that is refused changes nothing.
///
/// The counters must have room only where the amount is a denomination: any
/// other amount is refused whatever the counters hold.
pub fn handler(
    vault: &mut ShadowVault,
    vault_key: [u8; 32],
    commitment_tree: &mut CommitmentTree,
    amount: u64,
    commitment: [u8; 32],
    proof: &[u8],
    merkle_siblings: &[[u8; 32]; TREE_DEPTH],
    now: i64,
    note_bump: u8,
) -> (result: Result<ShieldedNote, AshbornError>)
    requires
        Denomination::of(amount) is Some ==> {
            &&& old(commitment_tree)@.next_index < u64::MAX
            &&& old(vault).note_count < u32::MAX
            &&& now + ProtocolState::DEFAULT_DELAY <= i64::MAX
        },
    ensures
        match shield_refusal(amount, commitment@, proof@) {
            Some(e) => {
                &&& result == Err::<ShieldedNote, AshbornError>(e)
                &&& *final(vault) == *old(vault)
                &&& *final(commitment_tree) == *old(commitment_tree)
            },
            None => {
                &&& result == Ok::<ShieldedNote, AshbornError>(
                    minted_note(
                        vault_key,
                        commitment,
                        old(commitment_tree)@.next_index as u64,
                        Denomination::of(amount)->0.spec_tier(),
                        now,
                        note_bump,
                    ),
                )
                &&& final(commitment_tree)@ == old(commitment_tree)@.insert(
                    commitment@,
                    rows(merkle_siblings@),
                )
                &&& final(commitment_tree).spec_authority() == old(commitment_tree).spec_authority()
                &&& final(commitment_tree).spec_bump() == old(commitment_tree).spec_bump()
                &&& *final(vault) == vault_with_new_note(*old(vault), now)
            },
        },
{
    // 1. Only the fixed denominations are accepted.
    let denomination = match Denomination::from_amount(amount) {
        Some(denomination) => denomination,
        None => {
            return Err(AshbornError::InvalidDenomination);
        },
    };

    // 2. The proof shows that the commitment is well formed.
    match verify_shield_proof(proof, amount, &commitment) {
        Ok(true) => {},
        Ok(false) => {
            return Err(AshbornError::InvalidCommitment);
        },
        Err(e) => {
            return Err(e);
        },
    }

    // 3. Insert the commitment into the Merkle tree.
    let note_index = match commitment_tree.insert_commitment(commitment, merkle_siblings) {
        Ok(index) => index,
        Err(e) => {
            return Err(e);
        },
    };

    // 4. Create the shielded note.
    let note = mint_note(vault_key, commitment, note_index, denomination.tier(), now, note_bump);

    // 5. Update the vault; it holds no balance.
    vault.note_count += 1;
    vault.last_activity = now;

    Ok(note)
}

/// An amount that is not one of the fixed denominations is never shielded:
/// whatever commitment and proof come with it, the shield is refused because
/// of the amount.
pub proof fn lemma_other_amounts_are_refused(amount: u64, commitment: Seq<u8>, proof: Seq<u8>)
    requires
        amount != 100_000_000,
        amount != 1_000_000_000,
        amount != 10_000_000_000,
        amount != 100_000_000_000,
        amount != 1_000_000_000_000,
    ensures
        Denomination::of(amount) is None,
        shield_refusal(amount, commitment, proof) == Some(AshbornError::InvalidDenomination),
{
}

} // verus!
