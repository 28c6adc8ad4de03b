//! The Merkle accumulators: one for note commitments, one for spent
//! nullifiers.
//!
//! Both are incremental hash trees of depth `TREE_DEPTH`. A leaf is inserted
//! at the next free index together with the sibling path that the caller has
//! computed; the accumulator recomputes the root along that path and keeps
//! the roots it had before in a bounded window, so that a proof made against
//! a slightly older root is still accepted.

use vstd::prelude::*;
use crate::bytes::{array_eq, rows};
use crate::errors::AshbornError;
use crate::state::accumulator::{root_from_path, zero_root, AccumulatorView, NullifierTreeView};
use crate::state::recent_roots::{RootRing, RECENT_ROOTS_COUNT};
use crate::zk::poseidon::{hash_pair, poseidon_hash_2};

verus! {

/// Merkle tree depth: the tree has room for 2^20 = 1,048,576 leaves.
pub const TREE_DEPTH: usize = 20;

/// Zero value for empty leaves.
pub const ZERO_VALUE: [u8; 32] = [
    0, 0, 0, 0, 0, 0, 0, 0, 0, 0, 0, 0, 0, 0, 0, 0,
    0, 0, 0, 0, 0, 0, 0, 0, 0, 0, 0, 0, 0, 0, 0, 0,
];

/// Compute the root that `leaf` at `index` has along `siblings`.
pub fn compute_root(
    leaf: &[u8; 32],
    index: u64,
    siblings: &[[u8; 32]; TREE_DEPTH],
) -> (root: [u8; 32])
    ensures
        root@ == root_from_path(leaf@, index as nat, rows(siblings@)),
{
    let ghost path = rows(siblings@);
    let mut current = *leaf;
    let mut idx = index;
    let mut i: usize = 0;
    assert(path.skip(0) =~= path);
    while i < TREE_DEPTH
        invariant
            i <= TREE_DEPTH,
            path == rows(siblings@),
            root_from_path(leaf@, index as nat, path) == root_from_path(
                current@,
                idx as nat,
                path.skip(i as int),
            ),
        decreases TREE_DEPTH - i,
    {
        let sibling = &siblings[i];
        assert(path.skip(i as int)[0] == sibling@);
        assert(path.skip(i as int).drop_first() =~= path.skip(i + 1));
        if idx % 2 == 0 {
            // The node is on the left.
            current = poseidon_hash_2(&current, sibling);
        } else {
            // The node is on the right.
            current = poseidon_hash_2(sibling, &current);
        }
        idx = idx / 2;
        i += 1;
    }
    current
}

/// Whether some entry of `list` occurs in it a second time.
pub fn has_duplicates(list: &[[u8; 32]]) -> (found: bool)
    ensures
        found == !rows(list@).no_duplicates(),
{
    let ghost all = rows(list@);
    let mut i: usize = 0;
    while i < list.len()
        invariant
            i <= list@.len(),
            all == rows(list@),
            forall|a: int, b: int| 0 <= a < i && 0 <= b < a ==> all[a] != all[b],
        decreases list@.len() - i,
    {
        let mut j: usize = 0;
        while j < i
            invariant
                j <= i < list@.len(),
                all == rows(list@),
                forall|b: int| 0 <= b < j ==> all[i as int] != all[b],
            decreases i - j,
        {
            if array_eq(&list[i], &list[j]) {
                assert(all[i as int] == all[j as int]);
                return true;
            }
            j += 1;
        }
        i += 1;
    }
    assert forall|a: int, b: int| 0 <= a < all.len() && 0 <= b < all.len() && a != b implies all[a]
        != all[b] by {
        if b < a {
            assert(all[a] != all[b]);
        } else {
            assert(all[b] != all[a]);
        }
    }
    false
}

/// Nullifier tree: the accumulator of spent nullifiers, with an exact record
/// of which nullifiers it holds.
///
/// The record is what answers whether a nullifier was spent: no nullifier
/// is in it twice, and the next free index of the tree is the number of
/// nullifiers in it.
pub struct NullifierTree {
    authority: [u8; 32],
    root: [u8; 32],
    depth: u8,
    recent_roots: RootRing,
    nullifiers: Vec<[u8; 32]>,
    bump: u8,
}

impl View for NullifierTree {
    type V = NullifierTreeView;

    closed spec fn view(&self) -> NullifierTreeView {
        NullifierTreeView {
            tree: AccumulatorView {
                root: self.root@,
                next_index: self.nullifiers@.len(),
                recent_roots: self.recent_roots@,
            },
            spent: rows(self.nullifiers@),
        }
    }
}

impl NullifierTree {
    /// Size of the stored tree without its record of nullifiers, in bytes.
    pub const SIZE: usize = 8 + 32 + 32 + 8 + 1 + (32 * RECENT_ROOTS_COUNT) + 1;

    #[verifier::type_invariant]
    spec fn sound(self) -> bool {
        self.depth == TREE_DEPTH && rows(self.nullifiers@).no_duplicates()
    }

    /// The authority over the tree.
    pub closed spec fn spec_authority(&self) -> [u8; 32] {
        self.authority
    }

    /// The bump seed of the tree's address.
    pub closed spec fn spec_bump(&self) -> u8 {
        self.bump
    }

    /// An empty tree under `authority`.
    pub fn new(authority: [u8; 32], bump: u8) -> (tree: Self)
        ensures
            tree@ == NullifierTreeView::empty(),
            tree.spec_authority() == authority,
            tree.spec_bump() == bump,
    {
        let tree = NullifierTree {
            authority,
            root: Self::compute_zero_root(),
            depth: TREE_DEPTH as u8,
            recent_roots: RootRing::new(),
            nullifiers: Vec::new(),
            bump,
        };
        assert(tree@.spent =~= Seq::<Seq<u8>>::empty());
        tree
    }

    /// The tree of the given parts: the current root, the recent roots from
    /// the newest to the oldest, and the nullifiers in the order of their
    /// indices. There is no such tree where the recent roots are more than
    /// the window holds, or where a nullifier occurs twice.
    pub fn from_parts(
        authority: [u8; 32],
        root: [u8; 32],
        recent_roots: &[[u8; 32]],
        nullifiers: Vec<[u8; 32]>,
        bump: u8,
    ) -> (result: Option<Self>)
        ensures
            result is Some <==> recent_roots@.len() <= RECENT_ROOTS_COUNT && rows(
                nullifiers@,
            ).no_duplicates(),
            result matches Some(tree) ==> {
                &&& tree@.tree.root == root@
                &&& tree@.tree.recent_roots == rows(recent_roots@)
                &&& tree@.spent == rows(nullifiers@)
                &&& tree@.well_formed()
                &&& tree.spec_authority() == authority
                &&& tree.spec_bump() == bump
            },
    {
        if recent_roots.len() > RECENT_ROOTS_COUNT || has_duplicates(nullifiers.as_slice()) {
            return None;
        }
        let ring = RootRing::from_slice(recent_roots);
        assert(rows(recent_roots@).take(recent_roots@.len() as int) =~= rows(recent_roots@));
        Some(
            NullifierTree {
                authority,
                root,
                depth: TREE_DEPTH as u8,
                recent_roots: ring,
                nullifiers,
                bump,
            },
        )
    }

    /// Initialize with the zero root: whatever the tree held is gone.
    pub fn initialize(&mut self, authority: [u8; 32], bump: u8)
        ensures
            final(self)@ == NullifierTreeView::empty(),
            final(self).spec_authority() == authority,
            final(self).spec_bump() == bump,
    {
        *self = Self::new(authority, bump);
    }

    /// The authority over the tree.
    #[verifier::when_used_as_spec(spec_authority)]
    pub fn authority(&self) -> (authority: [u8; 32])
        ensures
            authority == self.spec_authority(),
    {
        self.authority
    }

    /// The bump seed of the tree's address.
    #[verifier::when_used_as_spec(spec_bump)]
    pub fn bump(&self) -> (bump: u8)
        ensures
            bump == self.spec_bump(),
    {
        self.bump
    }

    /// The current Merkle root.
    pub fn root(&self) -> (root: [u8; 32])
        ensures
            root@ == self@.tree.root,
    {
        self.root
    }

    /// The index that the next nullifier gets: the number of nullifiers in
    /// the tree.
    pub fn next_index(&self) -> (index: u64)
        ensures
            index == self@.tree.next_index,
            index == self@.spent.len(),
    {
        self.nullifiers.len() as u64
    }

    /// The depth of the tree.
    pub fn depth(&self) -> (depth: u8)
        ensures
            depth == TREE_DEPTH,
    {
        proof {
            use_type_invariant(self);
        }
        self.depth
    }

    /// The roots before the current one, from the newest to the oldest.
    pub fn recent_roots(&self) -> (roots: Vec<[u8; 32]>)
        ensures
            rows(roots@) == self@.tree.recent_roots,
            roots@.len() <= RECENT_ROOTS_COUNT,
    {
        self.recent_roots.to_vec()
    }

    /// The nullifiers in the tree, in the order of their indices. None of
    /// them occurs twice.
    pub fn nullifiers(&self) -> (nullifiers: &[[u8; 32]])
        ensures
            rows(nullifiers@) == self@.spent,
            self@.spent.no_duplicates(),
    {
        proof {
            use_type_invariant(self);
        }
        self.nullifiers.as_slice()
    }

    /// Compute the root of an empty tree.
    pub fn compute_zero_root() -> (root: [u8; 32])
        ensures
            root@ == zero_root(TREE_DEPTH as nat),
    {
        let mut current = ZERO_VALUE;
        let mut level: usize = 0;
        while level < TREE_DEPTH
            invariant
                level <= TREE_DEPTH,
                current@ == zero_root(level as nat),
            decreases TREE_DEPTH - level,
        {
            current = Self::hash_pair(&current, &current);
            level += 1;
        }
        current
    }

    /// Hash two nodes into their parent.
    pub fn hash_pair(left: &[u8; 32], right: &[u8; 32]) -> (parent: [u8; 32])
        ensures
            parent@ == hash_pair(left@, right@),
    {
        poseidon_hash_2(left, right)
    }

    /// Insert a nullifier and update the root.
    ///
    /// A nullifier that the tree already holds is refused, and the tree stays
    /// as it was. Otherwise the former root joins the window of recent roots,
    /// the root becomes what the nullifier hashes to along `siblings` at the
    /// next free index, and that index moves on by one.
    pub fn insert(&mut self, nullifier: [u8; 32], siblings: &[[u8; 32]; TREE_DEPTH]) -> (result:
        Result<(), AshbornError>)
        ensures
            match old(self)@.insert(nullifier@, rows(siblings@)) {
                Ok(after) => result == Ok::<(), AshbornError>(()) && final(self)@ == after,
                Err(e) => result == Err::<(), AshbornError>(e) && *final(self) == *old(self),
            },
            result is Ok ==> final(self)@.well_formed(),
            final(self)@.nullifier_exists(nullifier@),
            final(self)@.tree.is_valid_root(old(self)@.tree.root),
            final(self).spec_authority() == old(self).spec_authority(),
            final(self).spec_bump() == old(self).spec_bump(),
    {
        proof {
            use_type_invariant(&*self);
        }
        if self.nullifier_exists(&nullifier) {
            return Err(AshbornError::NullifierAlreadyUsed);
        }
        // Compute the new root with the inserted nullifier.
        let index = self.nullifiers.len() as u64;
        let new_root = self.compute_root_with_leaf(&nullifier, index, siblings);
        let ghost before = rows(self.nullifiers@);

        // Rotate the recent roots, then update the root.
        let former = self.root;
        self.recent_roots.push(former);
        self.root = new_root;

        // Record the nullifier: the next free index moves on with it.
        let mut nullifiers: Vec<[u8; 32]> = Vec::new();
        core::mem::swap(&mut nullifiers, &mut self.nullifiers);
        nullifiers.push(nullifier);
        assert(rows(nullifiers@) =~= before.push(nullifier@));
        assert(rows(nullifiers@)[before.len() as int] == nullifier@);
        self.nullifiers = nullifiers;
        Ok(())
    }

    /// Compute the root with a new leaf at the given index.
    pub fn compute_root_with_leaf(
        &self,
        leaf: &[u8; 32],
        index: u64,
        siblings: &[[u8; 32]; TREE_DEPTH],
    ) -> (root: [u8; 32])
        ensures
            root@ == root_from_path(leaf@, index as nat, rows(siblings@)),
    {
        compute_root(leaf, index, siblings)
    }

    /// Check whether a root is valid: the current one or a recent one.
    pub fn is_valid_root(&self, root: &[u8; 32]) -> (valid: bool)
        ensures
            valid == self@.tree.is_valid_root(root@),
    {
        if array_eq(root, &self.root) {
            return true;
        }
        self.recent_roots.contains(root)
    }

    /// Verify a Merkle proof of nullifier membership.
    pub fn verify_membership(
        &self,
        nullifier: &[u8; 32],
        index: u64,
        siblings: &[[u8; 32]; TREE_DEPTH],
        root: &[u8; 32],
    ) -> (member: bool)
        ensures
            member == self@.tree.verify_membership(
                nullifier@,
                index as nat,
                rows(siblings@),
                root@,
            ),
    {
        if !self.is_valid_root(root) {
            return false;
        }
        let computed_root = self.compute_root_with_leaf(nullifier, index, siblings);
        array_eq(&computed_root, root)
    }

    /// Check whether exactly this nullifier is already in the tree.
    pub fn nullifier_exists(&self, nullifier: &[u8; 32]) -> (exists: bool)
        ensures
            exists == self@.nullifier_exists(nullifier@),
    {
        let mut i: usize = 0;
        while i < self.nullifiers.len()
            invariant
                i <= self.nullifiers@.len(),
                forall|j: int| 0 <= j < i ==> rows(self.nullifiers@)[j] != nullifier@,
            decreases self.nullifiers@.len() - i,
        {
            if array_eq(&self.nullifiers[i], nullifier) {
                assert(rows(self.nullifiers@)[i as int] == nullifier@);
                return true;
            }
            i += 1;
        }
        false
    }

    /// Verify that the provided siblings fit the current state of the tree.
    pub fn verify_siblings_for_insert(&self, siblings: &[[u8; 32]; TREE_DEPTH]) -> (result: Result<
        bool,
        AshbornError,
    >)
        ensures
            result == Ok::<bool, AshbornError>(self@.siblings_fit(rows(siblings@))),
    {
        // What the root would be with an empty leaf at the next free index.
        let next_index = self.nullifiers.len() as u64;
        let expected_root = self.compute_root_with_leaf(&ZERO_VALUE, next_index, siblings);
        Ok(self.is_valid_root(&expected_root) || next_index == 0)
    }
}

/// Commitment tree: the accumulator of note commitments.
pub struct CommitmentTree {
    authority: [u8; 32],
    root: [u8; 32],
    next_index: u64,
    depth: u8,
    recent_roots: RootRing,
    bump: u8,
}

impl View for CommitmentTree {
    type V = AccumulatorView;

    closed spec fn view(&self) -> AccumulatorView {
        AccumulatorView {
            root: self.root@,
            next_index: self.next_index as nat,
            recent_roots: self.recent_roots@,
        }
    }
}

impl CommitmentTree {
    /// Size of the stored tree in bytes: the same layout as the nullifier
    /// tree.
    pub const SIZE: usize = NullifierTree::SIZE;

    #[verifier::type_invariant]
    spec fn sound(self) -> bool {
        self.depth == TREE_DEPTH
    }

    /// The authority over the tree.
    pub closed spec fn spec_authority(&self) -> [u8; 32] {
        self.authority
    }

    /// The bump seed of the tree's address.
    pub closed spec fn spec_bump(&self) -> u8 {
        self.bump
    }

    /// An empty tree under `authority`.
    pub fn new(authority: [u8; 32], bump: u8) -> (tree: Self)
        ensures
            tree@ == AccumulatorView::empty(),
            tree.spec_authority() == authority,
            tree.spec_bump() == bump,
    {
        CommitmentTree {
            authority,
            root: NullifierTree::compute_zero_root(),
            next_index: 0,
            depth: TREE_DEPTH as u8,
            recent_roots: RootRing::new(),
            bump,
        }
    }

    /// The tree of the given parts: the current root, the next free index,
    /// and the recent roots from the newest to the oldest. There is no such
    /// tree where the recent roots are more than the window holds.
    pub fn from_parts(
        authority: [u8; 32],
        root: [u8; 32],
        next_index: u64,
        recent_roots: &[[u8; 32]],
        bump: u8,
    ) -> (result: Option<Self>)
        ensures
            result is Some <==> recent_roots@.len() <= RECENT_ROOTS_COUNT,
            result matches Some(tree) ==> {
                &&& tree@ == (AccumulatorView {
                    root: root@,
                    next_index: next_index as nat,
                    recent_roots: rows(recent_roots@),
                })
                &&& tree.spec_authority() == authority
                &&& tree.spec_bump() == bump
            },
    {
        if recent_roots.len() > RECENT_ROOTS_COUNT {
            return None;
        }
        let ring = RootRing::from_slice(recent_roots);
        assert(rows(recent_roots@).take(recent_roots@.len() as int) =~= rows(recent_roots@));
        Some(
            CommitmentTree {
                authority,
                root,
                next_index,
                depth: TREE_DEPTH as u8,
                recent_roots: ring,
                bump,
            },
        )
    }

    /// The authority over the tree.
    #[verifier::when_used_as_spec(spec_authority)]
    pub fn authority(&self) -> (authority: [u8; 32])
        ensures
            authority == self.spec_authority(),
    {
        self.authority
    }

    /// The bump seed of the tree's address.
    #[verifier::when_used_as_spec(spec_bump)]
    pub fn bump(&self) -> (bump: u8)
        ensures
            bump == self.spec_bump(),
    {
        self.bump
    }

    /// The current Merkle root of all commitments.
    pub fn root(&self) -> (root: [u8; 32])
        ensures
            root@ == self@.root,
    {
        self.root
    }

    /// The index that the next commitment gets.
    pub fn next_index(&self) -> (index: u64)
        ensures
            index == self@.next_index,
    {
        self.next_index
    }

    /// The depth of the tree.
    pub fn depth(&self) -> (depth: u8)
        ensures
            depth == TREE_DEPTH,
    {
        proof {
            use_type_invariant(self);
        }
        self.depth
    }

    /// The roots before the current one, from the newest to the oldest.
    pub fn recent_roots(&self) -> (roots: Vec<[u8; 32]>)
        ensures
            rows(roots@) == self@.recent_roots,
            roots@.len() <= RECENT_ROOTS_COUNT,
    {
        self.recent_roots.to_vec()
    }

    /// Insert a new commitment, and return the index it was given.
    pub fn insert_commitment(
        &mut self,
        commitment: [u8; 32],
        siblings: &[[u8; 32]; TREE_DEPTH],
    ) -> (result: Result<u64, AshbornError>)
        requires
            old(self)@.next_index < u64::MAX,
        ensures
            result == Ok::<u64, AshbornError>(old(self)@.next_index as u64),
            final(self)@ == old(self)@.insert(commitment@, rows(siblings@)),
            final(self)@.well_formed(),
            final(self)@.is_valid_root(old(self)@.root),
            final(self).spec_authority() == old(self).spec_authority(),
            final(self).spec_bump() == old(self).spec_bump(),
    {
        proof {
            use_type_invariant(&*self);
        }
        let index = self.next_index;

        // Compute the new root.
        let new_root = self.compute_root_with_leaf(&commitment, index, siblings);

        // Rotate the recent roots, then update the state.
        let former = self.root;
        self.recent_roots.push(former);
        self.root = new_root;
        self.next_index += 1;

        Ok(index)
    }

    /// Compute the root with a new leaf at the given index.
    pub fn compute_root_with_leaf(
        &self,
        leaf: &[u8; 32],
        index: u64,
        siblings: &[[u8; 32]; TREE_DEPTH],
    ) -> (root: [u8; 32])
        ensures
            root@ == root_from_path(leaf@, index as nat, rows(siblings@)),
    {
        compute_root(leaf, index, siblings)
    }

    /// Check whether a root is valid: the current one or a recent one.
    pub fn is_valid_root(&self, root: &[u8; 32]) -> (valid: bool)
        ensures
            valid == self@.is_valid_root(root@),
    {
        if array_eq(root, &self.root) {
            return true;
        }
        self.recent_roots.contains(root)
    }

    /// Verify a Merkle proof of the membership of a commitment.
    pub fn verify_membership(
        &self,
        commitment: &[u8; 32],
        index: u64,
        siblings: &[[u8; 32]; TREE_DEPTH],
        root: &[u8; 32],
    ) -> (member: bool)
        ensures
            member == self@.verify_membership(commitment@, index as nat, rows(siblings@), root@),
    {
        if !self.is_valid_root(root) {
            return false;
        }
        let computed_root = self.compute_root_with_leaf(commitment, index, siblings);
        array_eq(&computed_root, root)
    }
}

} // verus!
