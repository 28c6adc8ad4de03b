//! Transfer: spend a note, hand a commitment to the recipient, and keep the
//! change as a new note.

use vstd::prelude::*;
use crate::bytes::rows;
use crate::errors::AshbornError;
use crate::instructions::shield::{mint_note, minted_note, vault_with_new_note};
use crate::state::accumulator::{AccumulatorView, NullifierTreeView};
use crate::state::merkle::{CommitmentTree, NullifierTree, TREE_DEPTH};
use crate::state::notes::ShieldedNote;
use crate::state::protocol::ProtocolState;
use crate::state::vault::ShadowVault;
use crate::zk::groth16::{transfer_verdict, verify_transfer_proof};

verus! {

/// Whether a transfer gets as far as its proof: the source note is unspent,
/// the claimed root is the current root of the commitment tree or a recent
/// one, and the nullifier has not been inserted before.
pub open spec fn passes_state_checks(
    source_note: ShieldedNote,
    commitment_tree: AccumulatorView,
    nullifier_tree: NullifierTreeView,
    nullifier: Seq<u8>,
    merkle_root: Seq<u8>,
) -> bool {
    &&& !source_note.spent
    &&& commitment_tree.is_valid_root(merkle_root)
    &&& !nullifier_tree.nullifier_exists(nullifier)
}

/// Why a transfer is refused, if it is. The checks are made in this order:
/// the source note is unspent; the claimed root is the current root of the
/// commitment tree or a recent one; the nullifier has not been inserted
/// before; the proof verifies for the source commitment, the nullifier, the
/// two new commitments and the claimed root; the sibling path fits the
/// nullifier tree as it stands.
///
/// The path is held against the nullifier tree only, and a nullifier tree
/// without leaves takes any path. The change commitment goes into the
/// commitment tree along the same path without a check of its own, as the
/// commitment of a shield and the nullifier of an unshield do.
pub open spec fn transfer_refusal(
    source_note: ShieldedNote,
    commitment_tree: AccumulatorView,
    nullifier_tree: NullifierTreeView,
    nullifier: Seq<u8>,
    output_commitment: Seq<u8>,
    change_commitment: Seq<u8>,
    proof: Seq<u8>,
    siblings: Seq<Seq<u8>>,
    merkle_root: Seq<u8>,
) -> Option<AshbornError> {
    if source_note.spent {
        Some(AshbornError::NoteAlreadySpent)
    } else if !commitment_tree.is_valid_root(merkle_root) {
        Some(AshbornError::InvalidMerkleRoot)
    } else if nullifier_tree.nullifier_exists(nullifier) {
        Some(AshbornError::NullifierAlreadyUsed)
    } else {
        match transfer_verdict(
            proof,
            source_note.commitment@,
            nullifier,
            output_commitment,
            change_commitment,
            merkle_root,
        ) {
            Err(e) => Some(e),
            Ok(false) => Some(AshbornError::ProofVerificationFailed),
            Ok(true) => if nullifier_tree.siblings_fit(siblings) {
                None
            } else {
                Some(AshbornError::InvalidMerkleSiblings)
            },
        }
    }
}

/// Execute a transfer.
///
/// The nullifier goes into the nullifier tree and the change commitment
/// into the commitment tree, both along `merkle_siblings`, which must fit
/// the nullifier tree. The change becomes a new unspent note of the
/// sender's vault, which is returned, and the source note becomes spent.
/// The output commitment is for the recipient and leaves no note here. A
/// transfer that is refused changes nothing.
///
/// The counters must have room only where the transfer gets as far as its
/// proof: a transfer that is refused before that is refused whatever the
/// counters hold.
pub fn handler(
    sender_vault: &mut ShadowVault,
    sender_vault_key: [u8; 32],
    source_note: &mut ShieldedNote,
    nullifier_tree: &mut NullifierTree,
    commitment_tree: &mut CommitmentTree,
    nullifier: [u8; 32],
    output_commitment: [u8; 32],
    change_commitment: [u8; 32],
    proof: &[u8],
    merkle_siblings: &[[u8; 32]; TREE_DEPTH],
    merkle_root: [u8; 32],
    now: i64,
    change_note_bump: u8,
) -> (result: Result<ShieldedNote, AshbornError>)
    requires
        passes_state_checks(
            *old(source_note),
            old(commitment_tree)@,
            old(nullifier_tree)@,
            nullifier@,
            merkle_root@,
        ) ==> {
            &&& old(commitment_tree)@.next_index < u64::MAX
            &&& old(sender_vault).note_count < u32::MAX
            &&& now + ProtocolState::DEFAULT_DELAY <= i64::MAX
        },
    ensures
        match transfer_refusal(
            *old(source_note),
            old(commitment_tree)@,
            old(nullifier_tree)@,
            nullifier@,
            output_commitment@,
            change_commitment@,
            proof@,
            rows(merkle_siblings@),
            merkle_root@,
        ) {
            Some(e) => {
                &&& result == Err::<ShieldedNote, AshbornError>(e)
                &&& *final(sender_vault) == *old(sender_vault)
                &&& *final(source_note) == *old(source_note)
                &&& *final(nullifier_tree) == *old(nullifier_tree)
                &&& *final(commitment_tree) == *old(commitment_tree)
            },
            None => {
                &&& result == Ok::<ShieldedNote, AshbornError>(
                    minted_note(
                        sender_vault_key,
                        change_commitment,
                        old(commitment_tree)@.next_index as u64,
                        0,
                        now,
                        change_note_bump,
                    ),
                )
                &&& old(nullifier_tree)@.insert(nullifier@, rows(merkle_siblings@)) == Ok::<
                    NullifierTreeView,
                    AshbornError,
                >(final(nullifier_tree)@)
                &&& final(nullifier_tree).spec_authority() == old(nullifier_tree).spec_authority()
                &&& final(nullifier_tree).spec_bump() == old(nullifier_tree).spec_bump()
                &&& final(commitment_tree)@ == old(commitment_tree)@.insert(
                    change_commitment@,
                    rows(merkle_siblings@),
                )
                &&& final(commitment_tree).spec_authority() == old(commitment_tree).spec_authority()
                &&& final(commitment_tree).spec_bump() == old(commitment_tree).spec_bump()
                &&& *final(source_note) == (ShieldedNote { spent: true, ..*old(source_note) })
                &&& *final(sender_vault) == vault_with_new_note(*old(sender_vault), now)
            },
        },
        old(source_note).spent ==> final(source_note).spent,
{
    // 0. A note is spent once.
    if source_note.spent {
        return Err(AshbornError::NoteAlreadySpent);
    }
    // 1. The Merkle root must be the current one or a recent one.

    if !commitment_tree.is_valid_root(&merkle_root) {
        return Err(AshbornError::InvalidMerkleRoot);
    }
    // 2. The nullifier must not have been used.

    if nullifier_tree.nullifier_exists(&nullifier) {
        return Err(AshbornError::NullifierAlreadyUsed);
    }
    // 3. Groth16 proof verification.

    match verify_transfer_proof(
        proof,
        &source_note.commitment,
        &nullifier,
        &output_commitment,
        &change_commitment,
        &merkle_root,
    ) {
        Ok(true) => {},
        Ok(false) => {
            return Err(AshbornError::ProofVerificationFailed);
        },
        Err(e) => {
            return Err(e);
        },
    }

    // 4. The sibling path must fit the nullifier tree before anything is
    // inserted along it.
    match nullifier_tree.verify_siblings_for_insert(merkle_siblings) {
        Ok(true) => {},
        Ok(false) => {
            return Err(AshbornError::InvalidMerkleSiblings);
        },
        Err(e) => {
            return Err(e);
        },
    }

    // 5. Insert the nullifier into its tree.
    match nullifier_tree.insert(nullifier, merkle_siblings) {
        Ok(()) => {},
        Err(e) => {
            return Err(e);
        },
    }

    // 6. Mark the source note as spent.
    source_note.spent = true;

    // 7. Insert the change commitment into the commitment tree.
    let change_index = match commitment_tree.insert_commitment(change_commitment, merkle_siblings) {
        Ok(index) => index,
        Err(e) => {
            return Err(e);
        },
    };

    // 8. Create the change note.
    let change_note = mint_note(
        sender_vault_key,
        change_commitment,
        change_index,
        0,
        now,
        change_note_bump,
    );

    // 9. Update the vault.
    sender_vault.note_count += 1;
    sender_vault.last_activity = now;

    Ok(change_note)
}

/// A spent note is never transferred again: whatever else is offered, and
/// whatever the counters hold, the transfer is refused because the note is
/// spent.
pub proof fn lemma_spent_note_cannot_be_transferred(
    source_note: ShieldedNote,
    commitment_tree: AccumulatorView,
    nullifier_tree: NullifierTreeView,
    nullifier: Seq<u8>,
    output_commitment: Seq<u8>,
    change_commitment: Seq<u8>,
    proof: Seq<u8>,
    siblings: Seq<Seq<u8>>,
    merkle_root: Seq<u8>,
)
    requires
        source_note.spent,
    ensures
        !passes_state_checks(source_note, commitment_tree, nullifier_tree, nullifier, merkle_root),
        transfer_refusal(
            source_note,
            commitment_tree,
            nullifier_tree,
            nullifier,
            output_commitment,
            change_commitment,
            proof,
            siblings,
            merkle_root,
        ) == Some(AshbornError::NoteAlreadySpent),
{
}

/// A nullifier that is in the nullifier tree is never accepted again: a
/// transfer of an unspent note under an acceptable root is refused because
/// the nullifier was used, whatever else is offered and whatever the
/// counters hold.
pub proof fn lemma_used_nullifier_is_refused(
    source_note: ShieldedNote,
    commitment_tree: AccumulatorView,
    nullifier_tree: NullifierTreeView,
    nullifier: Seq<u8>,
    output_commitment: Seq<u8>,
    change_commitment: Seq<u8>,
    proof: Seq<u8>,
    siblings: Seq<Seq<u8>>,
    merkle_root: Seq<u8>,
)
    requires
        !source_note.spent,
        commitment_tree.is_valid_root(merkle_root),
        nullifier_tree.nullifier_exists(nullifier),
    ensures
        !passes_state_checks(source_note, commitment_tree, nullifier_tree, nullifier, merkle_root),
        transfer_refusal(
            source_note,
            commitment_tree,
            nullifier_tree,
            nullifier,
            output_commitment,
            change_commitment,
            proof,
            siblings,
            merkle_root,
        ) == Some(AshbornError::NullifierAlreadyUsed),
{
}

/// The nullifier of a transfer is spent for good: once a transfer has put
/// it into the nullifier tree, every later transfer that offers it again,
/// with an unspent note under an acceptable root, is refused because the
/// nullifier was used.
pub proof fn lemma_nullifier_of_a_transfer_is_refused_again(
    before: NullifierTreeView,
    nullifier: Seq<u8>,
    first_path: Seq<Seq<u8>>,
    source_note: ShieldedNote,
    commitment_tree: AccumulatorView,
    output_commitment: Seq<u8>,
    change_commitment: Seq<u8>,
    proof: Seq<u8>,
    siblings: Seq<Seq<u8>>,
    merkle_root: Seq<u8>,
)
    requires
        !source_note.spent,
        commitment_tree.is_valid_root(merkle_root),
    ensures
        before.insert(nullifier, first_path) matches Ok(after) ==> transfer_refusal(
            source_note,
            commitment_tree,
            after,
            nullifier,
            output_commitment,
            change_commitment,
            proof,
            siblings,
            merkle_root,
        ) == Some(AshbornError::NullifierAlreadyUsed),
{
    if let Ok(after) = before.insert(nullifier, first_path) {
        assert(after.spent[before.spent.len() as int] == nullifier);
    }
}

/// A sibling path that does not fit the nullifier tree is refused as such
/// where everything before it is in order: the note is unspent, the root
/// acceptable, the nullifier new and the proof verified.
pub proof fn lemma_unfit_siblings_are_refused(
    source_note: ShieldedNote,
    commitment_tree: AccumulatorView,
    nullifier_tree: NullifierTreeView,
    nullifier: Seq<u8>,
    output_commitment: Seq<u8>,
    change_commitment: Seq<u8>,
    proof: Seq<u8>,
    siblings: Seq<Seq<u8>>,
    merkle_root: Seq<u8>,
)
    requires
        passes_state_checks(source_note, commitment_tree, nullifier_tree, nullifier, merkle_root),
        transfer_verdict(
            proof,
            source_note.commitment@,
            nullifier,
            output_commitment,
            change_commitment,
            merkle_root,
        ) == Ok::<bool, AshbornError>(true),
    ensures
        transfer_refusal(
            source_note,
            commitment_tree,
            nullifier_tree,
            nullifier,
            output_commitment,
            change_commitment,
            proof,
            siblings,
            merkle_root,
        ) == if nullifier_tree.siblings_fit(siblings) {
            None
        } else {
            Some(AshbornError::InvalidMerkleSiblings)
        },
        nullifier_tree.tree.next_index == 0 ==> nullifier_tree.siblings_fit(siblings),
{
}

} // verus!
