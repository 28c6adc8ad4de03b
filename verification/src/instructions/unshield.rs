//! Unshield: spend a note and withdraw its value, less the protocol fee.

use vstd::prelude::*;
use crate::bytes::{rows, zero_array};
use crate::errors::AshbornError;
use crate::state::accumulator::NullifierTreeView;
use crate::state::merkle::{NullifierTree, TREE_DEPTH};
use crate::state::notes::ShieldedNote;
use crate::state::nullifier::Nullifier;
use crate::state::protocol::ProtocolState;
use crate::state::vault::ShadowVault;
use crate::instructions::shield::minted_note;
use crate::zk::groth16::{lemma_transfer_verdict_errors, transfer_verdict, verify_transfer_proof};

verus! {

/// The number of basis points in a whole.
pub const BPS_DENOMINATOR: u64 = 10000;

/// What a successful unshield hands back.
#[derive(Clone, Copy, Debug, PartialEq, Eq)]
pub struct Withdrawal {
    /// The fee that the protocol keeps.
    pub fee: u64,
    /// What is paid out: the amount less the fee.
    pub net_amount: u64,
    /// The record of the nullifier that was spent.
    pub nullifier: Nullifier,
}

/// The fee on `amount` at `fee_bps` basis points, rounded down.
pub open spec fn fee_of(amount: u64, fee_bps: u16) -> int {
    (amount * fee_bps) / (BPS_DENOMINATOR as int)
}

/// Whether the product of amount and rate, from which the fee is computed,
/// fits in 64 bits.
pub open spec fn fee_fits(amount: u64, fee_bps: u16) -> bool {
    amount * fee_bps <= u64::MAX
}

/// The amount that is left after the fee; nothing where the fee is larger
/// than the amount.
pub open spec fn net_of(amount: u64, fee_bps: u16) -> int {
    if fee_of(amount, fee_bps) <= amount {
        amount - fee_of(amount, fee_bps)
    } else {
        0
    }
}

/// The verdict on a withdraw proof: it is verified as a transfer proof for
/// the source commitment and the nullifier, with no output, no change and
/// no root.
pub open spec fn withdraw_verdict(proof: Seq<u8>, commitment: Seq<u8>, nullifier: Seq<u8>) -> Result<
    bool,
    AshbornError,
> {
    transfer_verdict(
        proof,
        commitment,
        nullifier,
        zero_array::<32>()@,
        zero_array::<32>()@,
        zero_array::<32>()@,
    )
}

/// Why an unshield is refused, if it is. The checks are made in this order:
/// the source note is unspent; its privacy delay has passed, the first
/// moment allowed being `unshield_after` itself; the nullifier has not been
/// inserted before; the proof verifies for the source commitment and the
/// nullifier; the fee can be computed without overflow.
pub open spec fn unshield_refusal(
    source_note: ShieldedNote,
    nullifier_tree: NullifierTreeView,
    fee_bps: u16,
    amount: u64,
    nullifier: Seq<u8>,
    proof: Seq<u8>,
    now: i64,
) -> Option<AshbornError> {
    if source_note.spent {
        Some(AshbornError::NoteAlreadySpent)
    } else if now < source_note.unshield_after {
        Some(AshbornError::TooSoonToUnshield)
    } else if nullifier_tree.nullifier_exists(nullifier) {
        Some(AshbornError::NullifierAlreadyUsed)
    } else {
        match withdraw_verdict(proof, source_note.commitment@, nullifier) {
            Err(e) => Some(e),
            Ok(false) => Some(AshbornError::InvalidWithdrawProof),
            Ok(true) => if fee_fits(amount, fee_bps) {
                None
            } else {
                Some(AshbornError::Overflow)
            },
        }
    }
}

/// The vault after one of its notes was withdrawn at the time `now`.
pub open spec fn vault_with_note_withdrawn(vault: ShadowVault, now: i64) -> ShadowVault {
    ShadowVault {
        note_count: if vault.note_count > 0 {
            (vault.note_count - 1) as u32
        } else {
            0
        },
        last_activity: now,
        ..vault
    }
}

/// Compute the protocol fee on `amount` and what is left of the amount.
///
/// The product of amount and rate is computed with a check: it never
/// wraps, and an amount for which it does not fit is refused.
pub fn compute_fee(amount: u64, fee_bps: u16) -> (result: Result<(u64, u64), AshbornError>)
    ensures
        fee_fits(amount, fee_bps) ==> result == Ok::<(u64, u64), AshbornError>(
            (fee_of(amount, fee_bps) as u64, net_of(amount, fee_bps) as u64),
        ),
        !fee_fits(amount, fee_bps) ==> result == Err::<(u64, u64), AshbornError>(
            AshbornError::Overflow,
        ),
{
    let fee = match amount.checked_mul(fee_bps as u64) {
        Some(product) => product / BPS_DENOMINATOR,
        None => {
            return Err(AshbornError::Overflow);
        },
    };
    let net_amount = amount.saturating_sub(fee);
    Ok((fee, net_amount))
}

/// Unshield `amount` from a note.
///
/// On success the nullifier goes into the nullifier tree along
/// `merkle_siblings`, which are taken as the caller gives them, the source
/// note becomes spent, the vault counts one note less, and the withdrawal
/// says what to pay out and what was kept as the fee. An unshield that is
/// refused changes nothing.
pub fn handler(
    vault: &mut ShadowVault,
    source_note: &mut ShieldedNote,
    nullifier_tree: &mut NullifierTree,
    protocol_state: &ProtocolState,
    amount: u64,
    nullifier: [u8; 32],
    proof: &[u8],
    merkle_siblings: &[[u8; 32]; TREE_DEPTH],
    now: i64,
    nullifier_bump: u8,
) -> (result: Result<Withdrawal, AshbornError>)
    ensures
        match unshield_refusal(
            *old(source_note),
            old(nullifier_tree)@,
            protocol_state.fee_bps,
            amount,
            nullifier@,
            proof@,
            now,
        ) {
            Some(e) => {
                &&& result == Err::<Withdrawal, AshbornError>(e)
                &&& *final(vault) == *old(vault)
                &&& *final(source_note) == *old(source_note)
                &&& *final(nullifier_tree) == *old(nullifier_tree)
            },
            None => {
                &&& result == Ok::<Withdrawal, AshbornError>(
                    Withdrawal {
                        fee: fee_of(amount, protocol_state.fee_bps) as u64,
                        net_amount: net_of(amount, protocol_state.fee_bps) as u64,
                        nullifier: Nullifier { hash: nullifier, spent_at: now, bump: nullifier_bump },
                    },
                )
                &&& old(nullifier_tree)@.insert(nullifier@, rows(merkle_siblings@)) == Ok::<
                    NullifierTreeView,
                    AshbornError,
                >(final(nullifier_tree)@)
                &&& final(nullifier_tree).spec_authority() == old(nullifier_tree).spec_authority()
                &&& final(nullifier_tree).spec_bump() == old(nullifier_tree).spec_bump()
                &&& *final(source_note) == (ShieldedNote { spent: true, ..*old(source_note) })
                &&& *final(vault) == vault_with_note_withdrawn(*old(vault), now)
            },
        },
        old(source_note).spent ==> final(source_note).spent,
{
    // 0. A note is spent once.
    if source_note.spent {
        return Err(AshbornError::NoteAlreadySpent);
    }
    // 1. The privacy delay must have passed.

    if now < source_note.unshield_after {
        return Err(AshbornError::TooSoonToUnshield);
    }
    // 2. The nullifier must not have been used.

    if nullifier_tree.nullifier_exists(&nullifier) {
        return Err(AshbornError::NullifierAlreadyUsed);
    }
    // 3. The withdraw proof: the spender knows what is behind the
    // commitment. There is no output, no change and no root.

    let none = [0u8; 32];
    match verify_transfer_proof(proof, &source_note.commitment, &nullifier, &none, &none, &none) {
        Ok(true) => {},
        Ok(false) => {
            return Err(AshbornError::InvalidWithdrawProof);
        },
        Err(e) => {
            return Err(e);
        },
    }

    // 4. The fee, computed with protection against overflow.
    let (fee, net_amount) = match compute_fee(amount, protocol_state.fee_bps) {
        Ok(amounts) => amounts,
        Err(e) => {
            return Err(e);
        },
    };

    // 5. Insert the nullifier into its tree.
    match nullifier_tree.insert(nullifier, merkle_siblings) {
        Ok(()) => {},
        Err(e) => {
            return Err(e);
        },
    }

    // 6. Mark the note as spent.
    source_note.spent = true;

    // 7. Update the vault.
    vault.note_count = vault.note_count.saturating_sub(1);
    vault.last_activity = now;

    Ok(
        Withdrawal {
            fee,
            net_amount,
            nullifier: Nullifier { hash: nullifier, spent_at: now, bump: nullifier_bump },
        },
    )
}

/// A spent note is never unshielded: whatever else is offered, the unshield
/// is refused because the note is spent.
pub proof fn lemma_spent_note_cannot_be_unshielded(
    source_note: ShieldedNote,
    nullifier_tree: NullifierTreeView,
    fee_bps: u16,
    amount: u64,
    nullifier: Seq<u8>,
    proof: Seq<u8>,
    now: i64,
)
    requires
        source_note.spent,
    ensures
        unshield_refusal(source_note, nullifier_tree, fee_bps, amount, nullifier, proof, now)
            == Some(AshbornError::NoteAlreadySpent),
{
}

/// The privacy delay is 24 hours and its boundary is inclusive. A note
/// that was created unspent at the time `created_at` is refused as too soon
/// at every time before `created_at + 86400`, and at no time from then on.
pub proof fn lemma_unshield_delay_boundary(
    vault_key: [u8; 32],
    commitment: [u8; 32],
    index: u64,
    denomination_tier: u8,
    created_at: i64,
    bump: u8,
    nullifier_tree: NullifierTreeView,
    fee_bps: u16,
    amount: u64,
    nullifier: Seq<u8>,
    proof: Seq<u8>,
    now: i64,
)
    requires
        created_at + 86400 <= i64::MAX,
    ensures
        ({
            let note = minted_note(vault_key, commitment, index, denomination_tier, created_at, bump);
            let refusal = unshield_refusal(
                note,
                nullifier_tree,
                fee_bps,
                amount,
                nullifier,
                proof,
                now,
            );
            &&& note.unshield_after == created_at + 86400
            &&& now < created_at + 86400 <==> refusal == Some(AshbornError::TooSoonToUnshield)
        }),
{
    let note = minted_note(vault_key, commitment, index, denomination_tier, created_at, bump);
    if now >= created_at + 86400 {
        if !nullifier_tree.nullifier_exists(nullifier) {
            lemma_proof_error_is_not_a_timing_error(proof, note.commitment@, nullifier);
        }
    }
}

/// What a withdraw proof can fail with is a failed verification, never the
/// privacy delay.
pub proof fn lemma_proof_error_is_not_a_timing_error(
    proof: Seq<u8>,
    commitment: Seq<u8>,
    nullifier: Seq<u8>,
)
    ensures
        withdraw_verdict(proof, commitment, nullifier) matches Err(e) ==> e
            == AshbornError::ProofVerificationFailed,
{
    lemma_transfer_verdict_errors(
        proof,
        commitment,
        nullifier,
        zero_array::<32>()@,
        zero_array::<32>()@,
        zero_array::<32>()@,
    );
}

/// The fee never exceeds the amount at a rate of at most 100 percent, and
/// fee and net amount add up to the amount.
pub proof fn lemma_fee_and_net_add_up(amount: u64, fee_bps: u16)
    requires
        fee_bps <= BPS_DENOMINATOR,
    ensures
        0 <= fee_of(amount, fee_bps) <= amount,
        fee_of(amount, fee_bps) + net_of(amount, fee_bps) == amount,
{
    assert(amount * fee_bps <= amount * 10000) by (nonlinear_arith)
        requires
            0 <= fee_bps <= 10000,
            0 <= amount,
    ;
    assert(0 <= amount * fee_bps) by (nonlinear_arith)
        requires
            0 <= fee_bps,
            0 <= amount,
    ;
}

} // verus!
