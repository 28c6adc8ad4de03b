//! What the Merkle accumulators are, apart from how they are stored, and
//! what holds of them.
//!
//! The trees of `merkle` are described by the values of this module: every
//! operation on a tree is an operation here on its view, and the laws proved
//! here hold of every tree.

use vstd::prelude::*;
use crate::errors::AshbornError;
use crate::state::merkle::{TREE_DEPTH, ZERO_VALUE};
use crate::state::recent_roots::{remember, RECENT_ROOTS_COUNT};
use crate::zk::poseidon::hash_pair;

verus! {

/// The node reached from `leaf` at position `index` by combining it, level
/// by level, with the nodes of `siblings`.
///
/// At each level the lowest bit of the index decides the order: an even
/// position is the left operand, an odd position the right one. Then the
/// index moves up one level.
pub open spec fn root_from_path(leaf: Seq<u8>, index: nat, siblings: Seq<Seq<u8>>) -> Seq<u8>
    decreases siblings.len(),
{
    if siblings.len() == 0 {
        leaf
    } else {
        let parent = if index % 2 == 0 {
            hash_pair(leaf, siblings[0])
        } else {
            hash_pair(siblings[0], leaf)
        };
        root_from_path(parent, index / 2, siblings.drop_first())
    }
}

/// The root of a tree of the given height whose leaves are all empty.
pub open spec fn zero_root(height: nat) -> Seq<u8>
    decreases height,
{
    if height == 0 {
        ZERO_VALUE@
    } else {
        hash_pair(zero_root((height - 1) as nat), zero_root((height - 1) as nat))
    }
}

/// What an accumulator is, apart from how it is stored.
pub struct AccumulatorView {
    /// The current root.
    pub root: Seq<u8>,
    /// The index that the next leaf gets.
    pub next_index: nat,
    /// The roots before the current one, newest first.
    pub recent_roots: Seq<Seq<u8>>,
}

impl AccumulatorView {
    /// The accumulator without leaves.
    pub open spec fn empty() -> AccumulatorView {
        AccumulatorView {
            root: zero_root(TREE_DEPTH as nat),
            next_index: 0,
            recent_roots: Seq::empty(),
        }
    }

    /// The window of former roots is within its bound.
    pub open spec fn well_formed(self) -> bool {
        self.recent_roots.len() <= RECENT_ROOTS_COUNT
    }

    /// Whether `candidate` is the current root or one of the remembered ones.
    pub open spec fn is_valid_root(self, candidate: Seq<u8>) -> bool {
        candidate == self.root || self.recent_roots.contains(candidate)
    }

    /// Whether `root` is acceptable and is what `leaf` at `index` hashes to
    /// along `siblings`.
    pub open spec fn verify_membership(
        self,
        leaf: Seq<u8>,
        index: nat,
        siblings: Seq<Seq<u8>>,
        root: Seq<u8>,
    ) -> bool {
        self.is_valid_root(root) && root_from_path(leaf, index, siblings) == root
    }

    /// The accumulator after `leaf` went in at the next free index.
    pub open spec fn insert(self, leaf: Seq<u8>, siblings: Seq<Seq<u8>>) -> AccumulatorView {
        AccumulatorView {
            root: root_from_path(leaf, self.next_index, siblings),
            next_index: self.next_index + 1,
            recent_roots: remember(self.recent_roots, self.root),
        }
    }

    /// The accumulator after the first `count` of the given leaves went in,
    /// each with its own sibling path.
    pub open spec fn insert_many(
        self,
        leaves: Seq<Seq<u8>>,
        paths: Seq<Seq<Seq<u8>>>,
        count: nat,
    ) -> AccumulatorView
        decreases count,
    {
        if count == 0 {
            self
        } else {
            self.insert_many(leaves, paths, (count - 1) as nat).insert(
                leaves[count - 1],
                paths[count - 1],
            )
        }
    }
}

/// What the nullifier tree is: an accumulator, and the nullifiers that went
/// into it, in the order of their indices.
pub struct NullifierTreeView {
    /// The accumulator over the nullifiers.
    pub tree: AccumulatorView,
    /// Every nullifier inserted so far.
    pub spent: Seq<Seq<u8>>,
}

impl NullifierTreeView {
    /// The nullifier tree without nullifiers.
    pub open spec fn empty() -> NullifierTreeView {
        NullifierTreeView { tree: AccumulatorView::empty(), spent: Seq::empty() }
    }

    /// The window of roots is within its bound, every leaf of the
    /// accumulator is a recorded nullifier, and no nullifier occurs twice.
    pub open spec fn well_formed(self) -> bool {
        &&& self.tree.well_formed()
        &&& self.tree.next_index == self.spent.len()
        &&& self.spent.no_duplicates()
    }

    /// Whether exactly this nullifier has been inserted before.
    pub open spec fn nullifier_exists(self, nullifier: Seq<u8>) -> bool {
        self.spent.contains(nullifier)
    }

    /// The outcome of inserting `nullifier`: the tree after it, or the
    /// refusal of a nullifier that is already there.
    pub open spec fn insert(self, nullifier: Seq<u8>, siblings: Seq<Seq<u8>>) -> Result<
        NullifierTreeView,
        AshbornError,
    > {
        if self.nullifier_exists(nullifier) {
            Err(AshbornError::NullifierAlreadyUsed)
        } else {
            Ok(
                NullifierTreeView {
                    tree: self.tree.insert(nullifier, siblings),
                    spent: self.spent.push(nullifier),
                },
            )
        }
    }

    /// Whether `siblings` fit an insertion into the tree as it stands: the
    /// tree is empty, or an empty leaf at the next free index hashes to an
    /// acceptable root along them.
    pub open spec fn siblings_fit(self, siblings: Seq<Seq<u8>>) -> bool {
        self.tree.is_valid_root(root_from_path(ZERO_VALUE@, self.tree.next_index, siblings))
            || self.tree.next_index == 0
    }
}

/// A leaf that was just inserted is a member under the new root: the path it
/// was inserted with proves it, whatever that path was.
pub proof fn lemma_inserted_leaf_is_member(
    tree: AccumulatorView,
    leaf: Seq<u8>,
    siblings: Seq<Seq<u8>>,
)
    ensures
        tree.insert(leaf, siblings).verify_membership(
            leaf,
            tree.next_index,
            siblings,
            tree.insert(leaf, siblings).root,
        ),
{
}

/// A path proves membership under a root only if it hashes to that root: a
/// path that was changed so that it hashes to anything else proves nothing,
/// whatever the tree remembers.
pub proof fn lemma_other_path_is_no_proof(
    tree: AccumulatorView,
    leaf: Seq<u8>,
    index: nat,
    siblings: Seq<Seq<u8>>,
    root: Seq<u8>,
)
    requires
        root_from_path(leaf, index, siblings) != root,
    ensures
        !tree.verify_membership(leaf, index, siblings, root),
{
}

/// An insertion keeps the window of roots within its bound, makes the former
/// root acceptable still, and moves the next free index on by exactly one.
pub proof fn lemma_insert_keeps_former_root(
    tree: AccumulatorView,
    leaf: Seq<u8>,
    siblings: Seq<Seq<u8>>,
)
    requires
        tree.well_formed(),
    ensures
        tree.insert(leaf, siblings).well_formed(),
        tree.insert(leaf, siblings).is_valid_root(tree.root),
        tree.insert(leaf, siblings).next_index == tree.next_index + 1,
{
    let after = tree.insert(leaf, siblings);
    assert(after.recent_roots[0] == tree.root);
}

/// The window of roots after `count` insertions: first the roots that the
/// insertions replaced, the newest in front, then what is left of the window
/// from before.
pub proof fn lemma_window_after_inserts(
    tree: AccumulatorView,
    leaves: Seq<Seq<u8>>,
    paths: Seq<Seq<Seq<u8>>>,
    count: nat,
)
    requires
        tree.well_formed(),
    ensures
        ({
            let after = tree.insert_many(leaves, paths, count);
            &&& after.well_formed()
            &&& after.next_index == tree.next_index + count
            &&& after.recent_roots.len() == if count + tree.recent_roots.len()
                < RECENT_ROOTS_COUNT {
                count + tree.recent_roots.len()
            } else {
                RECENT_ROOTS_COUNT as nat
            }
            &&& forall|i: int|
                0 <= i < after.recent_roots.len() ==> #[trigger] after.recent_roots[i] == if i
                    < count {
                    tree.insert_many(leaves, paths, (count - 1 - i) as nat).root
                } else {
                    tree.recent_roots[i - count]
                }
        }),
    decreases count,
{
    if count > 0 {
        let k = (count - 1) as nat;
        lemma_window_after_inserts(tree, leaves, paths, k);
        let before = tree.insert_many(leaves, paths, k);
        let after = tree.insert_many(leaves, paths, count);
        assert(after.recent_roots == remember(before.recent_roots, before.root));
        assert forall|i: int| 0 <= i < after.recent_roots.len() implies
            #[trigger] after.recent_roots[i] == if i < count {
            tree.insert_many(leaves, paths, (count - 1 - i) as nat).root
        } else {
            tree.recent_roots[i - count]
        } by {
            if i > 0 {
                assert(after.recent_roots[i] == before.recent_roots[i - 1]);
            }
        }
    }
}

/// After at least `RECENT_ROOTS_COUNT` insertions the acceptable roots are
/// exactly the current root and the roots of the `RECENT_ROOTS_COUNT` states
/// before it: nothing older is accepted, unless it is equal to one of these.
pub proof fn lemma_recent_root_window(
    tree: AccumulatorView,
    leaves: Seq<Seq<u8>>,
    paths: Seq<Seq<Seq<u8>>>,
    count: nat,
    candidate: Seq<u8>,
)
    requires
        tree.well_formed(),
        count >= RECENT_ROOTS_COUNT,
    ensures
        tree.insert_many(leaves, paths, count).is_valid_root(candidate) <==> exists|k: nat|
            count - RECENT_ROOTS_COUNT <= k <= count && #[trigger] tree.insert_many(
                leaves,
                paths,
                k,
            ).root == candidate,
{
    lemma_window_after_inserts(tree, leaves, paths, count);
    let after = tree.insert_many(leaves, paths, count);
    if after.is_valid_root(candidate) {
        if candidate == after.root {
            assert(tree.insert_many(leaves, paths, count).root == candidate);
        } else {
            let i = choose|i: int|
                0 <= i < after.recent_roots.len() && after.recent_roots[i] == candidate;
            let k = (count - 1 - i) as nat;
            assert(tree.insert_many(leaves, paths, k).root == candidate);
        }
    }
    if exists|k: nat|
        count - RECENT_ROOTS_COUNT <= k <= count && #[trigger] tree.insert_many(
            leaves,
            paths,
            k,
        ).root == candidate {
        let k = choose|k: nat|
            count - RECENT_ROOTS_COUNT <= k <= count && #[trigger] tree.insert_many(
                leaves,
                paths,
                k,
            ).root == candidate;
        if k < count {
            let i = count - 1 - k;
            assert(after.recent_roots[i] == candidate);
        }
    }
}

/// Thirty-one insertions push a root out of the window: the root from before
/// them is no longer acceptable, provided that none of the thirty-one roots
/// after it is equal to it, while each of those thirty-one still is.
pub proof fn lemma_root_expires_after_31_inserts(
    tree: AccumulatorView,
    leaves: Seq<Seq<u8>>,
    paths: Seq<Seq<Seq<u8>>>,
)
    requires
        tree.well_formed(),
        forall|k: nat|
            1 <= k <= 31 ==> #[trigger] tree.insert_many(leaves, paths, k).root != tree.root,
    ensures
        !tree.insert_many(leaves, paths, 31).is_valid_root(tree.root),
        forall|k: nat|
            1 <= k <= 31 ==> tree.insert_many(leaves, paths, 31).is_valid_root(
                #[trigger] tree.insert_many(leaves, paths, k).root,
            ),
{
    lemma_recent_root_window(tree, leaves, paths, 31, tree.root);
    assert forall|k: nat| 1 <= k <= 31 implies tree.insert_many(leaves, paths, 31).is_valid_root(
        #[trigger] tree.insert_many(leaves, paths, k).root,
    ) by {
        lemma_recent_root_window(tree, leaves, paths, 31, tree.insert_many(leaves, paths, k).root);
    }
}

/// A nullifier goes in once: after it was inserted, every further insertion
/// of the same value is refused, whatever path comes with it.
pub proof fn lemma_second_insert_is_refused(
    tree: NullifierTreeView,
    nullifier: Seq<u8>,
    first_path: Seq<Seq<u8>>,
    second_path: Seq<Seq<u8>>,
)
    ensures
        tree.insert(nullifier, first_path) matches Ok(after) ==> after.insert(
            nullifier,
            second_path,
        ) == Err::<NullifierTreeView, AshbornError>(AshbornError::NullifierAlreadyUsed),
        tree.nullifier_exists(nullifier) ==> tree.insert(nullifier, first_path) == Err::<
            NullifierTreeView,
            AshbornError,
        >(AshbornError::NullifierAlreadyUsed),
{
    if let Ok(after) = tree.insert(nullifier, first_path) {
        assert(after.spent[tree.spent.len() as int] == nullifier);
    }
}

/// Insertions keep the nullifier tree sound, and keep what it holds: a
/// nullifier that is in the tree stays in it.
pub proof fn lemma_nullifier_insert_preserves(
    tree: NullifierTreeView,
    nullifier: Seq<u8>,
    siblings: Seq<Seq<u8>>,
    earlier: Seq<u8>,
)
    requires
        tree.well_formed(),
    ensures
        tree.insert(nullifier, siblings) matches Ok(after) ==> {
            &&& after.well_formed()
            &&& after.nullifier_exists(nullifier)
            &&& tree.nullifier_exists(earlier) ==> after.nullifier_exists(earlier)
            &&& after.spent.len() == tree.spent.len() + 1
        },
{
    if let Ok(after) = tree.insert(nullifier, siblings) {
        lemma_insert_keeps_former_root(tree.tree, nullifier, siblings);
        assert(after.spent[tree.spent.len() as int] == nullifier);
        if tree.nullifier_exists(earlier) {
            let i = choose|i: int| 0 <= i < tree.spent.len() && tree.spent[i] == earlier;
            assert(after.spent[i] == earlier);
        }
    }
}

} // verus!
