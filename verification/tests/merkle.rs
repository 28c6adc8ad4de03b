// The Merkle accumulators: insertion, root rotation, membership and the
// exact record of nullifiers.

use ashborn::errors::AshbornError;
use ashborn::state::merkle::{compute_root, has_duplicates};
use ashborn::state::{
    CommitmentTree, NullifierTree, RootRing, RECENT_ROOTS_COUNT, TREE_DEPTH, ZERO_VALUE,
};
use ashborn::zk::poseidon_hash_2;

const EMPTY_ROOT: [u8; 32] = [
    0xc6, 0x5e, 0x96, 0x45, 0x64, 0x47, 0x86, 0xb6, 0x20, 0xe2, 0xdd, 0x2a, 0xd6, 0x48, 0xdd, 0xfc,
    0xbf, 0x4a, 0x7e, 0x5b, 0x1a, 0x3a, 0x4e, 0xcf, 0xe7, 0xf6, 0x46, 0x67, 0xa3, 0xf0, 0xb7, 0xe2,
];

const ROOT_SEVENS_AT_5: [u8; 32] = [
    0x49, 0x56, 0xe2, 0x2e, 0xaa, 0x13, 0x0c, 0x80, 0xe5, 0xe2, 0x9a, 0x98, 0x7e, 0x5f, 0xd1, 0x3d,
    0x9f, 0x7d, 0x4a, 0x26, 0xf0, 0xe8, 0xfb, 0x42, 0x93, 0xb5, 0x0d, 0xc5, 0x57, 0x72, 0x71, 0x72,
];

const ROOT_SEVENS_AT_0: [u8; 32] = [
    0x98, 0xd9, 0x28, 0x2c, 0x68, 0x9b, 0xbb, 0x74, 0x5b, 0x1d, 0x98, 0xf8, 0x08, 0x23, 0xec, 0x6a,
    0x77, 0xf0, 0xf8, 0x6e, 0x32, 0x53, 0x7c, 0xfc, 0xf5, 0x41, 0x04, 0x07, 0xb8, 0x66, 0xa1, 0xfc,
];

/// A sibling path whose node at level `i` is made of the byte `i + 1`.
fn numbered_siblings() -> [[u8; 32]; TREE_DEPTH] {
    let mut siblings = [[0u8; 32]; TREE_DEPTH];
    for (level, sibling) in siblings.iter_mut().enumerate() {
        *sibling = [level as u8 + 1; 32];
    }
    siblings
}

/// The sibling path of the first leaf of an empty tree: the roots of the
/// empty subtrees of each height.
fn empty_siblings() -> [[u8; 32]; TREE_DEPTH] {
    let mut siblings = [[0u8; 32]; TREE_DEPTH];
    let mut node = ZERO_VALUE;
    for sibling in siblings.iter_mut() {
        *sibling = node;
        node = poseidon_hash_2(&node, &node);
    }
    siblings
}

/// A leaf that is different for every `n` below 65536.
fn leaf(n: u16) -> [u8; 32] {
    let mut bytes = [0xabu8; 32];
    bytes[0] = (n >> 8) as u8;
    bytes[1] = n as u8;
    bytes
}

#[test]
fn test_tree_capacity() {
    let capacity = 2u64.pow(TREE_DEPTH as u32);
    assert_eq!(capacity, 1_048_576); // ~1 million nullifiers
}

#[test]
fn test_merkle_path_length() {
    // Path should have TREE_DEPTH siblings
    let path: Vec<[u8; 32]> = vec![[0u8; 32]; TREE_DEPTH];
    assert_eq!(path.len(), 20);
    assert_eq!(numbered_siblings().len(), 20);
}

#[test]
fn test_index_to_path() {
    // Index 5 = binary 101
    // Path directions: right, left, right (from leaf up)
    let index = 5u64;
    let mut directions = Vec::new();
    let mut idx = index;

    for _ in 0..3 {
        directions.push(idx % 2);
        idx /= 2;
    }

    assert_eq!(directions, vec![1, 0, 1]); // r, l, r

    // The same directions, as the tree takes them.
    let siblings = numbered_siblings();
    let start = [7u8; 32];
    let level1 = poseidon_hash_2(&siblings[0], &start);
    let level2 = poseidon_hash_2(&level1, &siblings[1]);
    let mut node = poseidon_hash_2(&siblings[2], &level2);
    for sibling in siblings.iter().skip(3) {
        node = poseidon_hash_2(&node, sibling);
    }
    assert_eq!(compute_root(&start, index, &siblings), node);
}

#[test]
fn constants_have_their_values() {
    assert_eq!(TREE_DEPTH, 20);
    assert_eq!(RECENT_ROOTS_COUNT, 30);
    assert_eq!(ZERO_VALUE, [0u8; 32]);
    assert_eq!(NullifierTree::SIZE, 8 + 32 + 32 + 8 + 1 + 32 * 30 + 1);
    assert_eq!(CommitmentTree::SIZE, NullifierTree::SIZE);
}

#[test]
fn empty_root_is_twenty_hashes_of_zero() {
    assert_eq!(NullifierTree::compute_zero_root(), EMPTY_ROOT);
    assert_eq!(NullifierTree::new([1u8; 32], 2).root(), EMPTY_ROOT);
    assert_eq!(CommitmentTree::new([1u8; 32], 2).root(), EMPTY_ROOT);
}

#[test]
fn hash_pair_of_the_tree_is_the_compression_function() {
    let left = [3u8; 32];
    let right = [4u8; 32];
    assert_eq!(NullifierTree::hash_pair(&left, &right), poseidon_hash_2(&left, &right));
}

#[test]
fn root_from_path_has_known_values() {
    let siblings = numbered_siblings();
    assert_eq!(compute_root(&[7u8; 32], 5, &siblings), ROOT_SEVENS_AT_5);
    assert_eq!(compute_root(&[7u8; 32], 0, &siblings), ROOT_SEVENS_AT_0);
}

#[test]
fn root_from_path_reads_only_the_low_bits_of_the_index() {
    let siblings = numbered_siblings();
    let leaf = [7u8; 32];
    assert_eq!(
        compute_root(&leaf, 5 + (1 << TREE_DEPTH), &siblings),
        compute_root(&leaf, 5, &siblings)
    );
    assert_ne!(compute_root(&leaf, 4, &siblings), compute_root(&leaf, 5, &siblings));
}

#[test]
fn both_trees_compute_the_same_root() {
    let siblings = numbered_siblings();
    let nullifiers = NullifierTree::new([0u8; 32], 0);
    let commitments = CommitmentTree::new([0u8; 32], 0);
    assert_eq!(
        nullifiers.compute_root_with_leaf(&[7u8; 32], 5, &siblings),
        ROOT_SEVENS_AT_5
    );
    assert_eq!(
        commitments.compute_root_with_leaf(&[7u8; 32], 5, &siblings),
        ROOT_SEVENS_AT_5
    );
}

#[test]
fn new_tree_is_empty() {
    let tree = NullifierTree::new([9u8; 32], 254);
    assert_eq!(tree.authority(), [9u8; 32]);
    assert_eq!(tree.bump(), 254);
    assert_eq!(tree.depth(), 20);
    assert_eq!(tree.next_index(), 0);
    assert!(tree.recent_roots().is_empty());
    assert!(tree.nullifiers().is_empty());

    let tree = CommitmentTree::new([8u8; 32], 253);
    assert_eq!(tree.authority(), [8u8; 32]);
    assert_eq!(tree.bump(), 253);
    assert_eq!(tree.depth(), 20);
    assert_eq!(tree.next_index(), 0);
    assert!(tree.recent_roots().is_empty());
}

#[test]
fn zero_is_not_a_valid_root_of_a_new_tree() {
    let tree = CommitmentTree::new([0u8; 32], 0);
    assert!(tree.is_valid_root(&EMPTY_ROOT));
    assert!(!tree.is_valid_root(&[0u8; 32]));
    let tree = NullifierTree::new([0u8; 32], 0);
    assert!(tree.is_valid_root(&EMPTY_ROOT));
    assert!(!tree.is_valid_root(&[0u8; 32]));
}

#[test]
fn initialize_resets_the_tree() {
    let mut tree = NullifierTree::new([1u8; 32], 1);
    tree.insert(leaf(1), &numbered_siblings()).unwrap();
    tree.insert(leaf(2), &numbered_siblings()).unwrap();
    tree.initialize([2u8; 32], 7);
    assert_eq!(tree.authority(), [2u8; 32]);
    assert_eq!(tree.bump(), 7);
    assert_eq!(tree.root(), EMPTY_ROOT);
    assert_eq!(tree.next_index(), 0);
    assert!(tree.recent_roots().is_empty());
    assert!(!tree.nullifier_exists(&leaf(1)));
    assert_eq!(tree.insert(leaf(1), &numbered_siblings()), Ok(()));
}

#[test]
fn insert_commitment_assigns_consecutive_indices() {
    let siblings = numbered_siblings();
    let mut tree = CommitmentTree::new([0u8; 32], 0);
    for n in 0..5u16 {
        assert_eq!(tree.insert_commitment(leaf(n), &siblings), Ok(n as u64));
        assert_eq!(tree.next_index(), n as u64 + 1);
    }
}

#[test]
fn insert_commitment_updates_root_and_window() {
    let siblings = numbered_siblings();
    let mut tree = CommitmentTree::new([4u8; 32], 3);
    let first = leaf(1);
    let second = leaf(2);

    tree.insert_commitment(first, &siblings).unwrap();
    let root1 = compute_root(&first, 0, &siblings);
    assert_eq!(tree.root(), root1);
    assert_eq!(tree.recent_roots(), vec![EMPTY_ROOT]);

    tree.insert_commitment(second, &siblings).unwrap();
    let root2 = compute_root(&second, 1, &siblings);
    assert_eq!(tree.root(), root2);
    assert_eq!(tree.recent_roots(), vec![root1, EMPTY_ROOT]);
    assert_eq!(tree.authority(), [4u8; 32]);
    assert_eq!(tree.bump(), 3);
}

#[test]
fn inserted_leaf_is_a_member_under_the_new_root() {
    let siblings = empty_siblings();
    let mut tree = CommitmentTree::new([0u8; 32], 0);
    let commitment = leaf(77);
    let index = tree.insert_commitment(commitment, &siblings).unwrap();
    let root = tree.root();
    assert!(tree.verify_membership(&commitment, index, &siblings, &root));

    let mut tree = NullifierTree::new([0u8; 32], 0);
    let index = tree.next_index();
    tree.insert(commitment, &siblings).unwrap();
    let root = tree.root();
    assert!(tree.verify_membership(&commitment, index, &siblings, &root));
}

#[test]
fn flipping_any_byte_of_any_sibling_breaks_membership() {
    let siblings = empty_siblings();
    let mut tree = NullifierTree::new([0u8; 32], 0);
    let nullifier = leaf(3);
    tree.insert(nullifier, &siblings).unwrap();
    let root = tree.root();
    assert!(tree.verify_membership(&nullifier, 0, &siblings, &root));

    for level in 0..TREE_DEPTH {
        for byte in 0..32 {
            let mut tampered = siblings;
            tampered[level][byte] ^= 0x01;
            assert!(!tree.verify_membership(&nullifier, 0, &tampered, &root));
        }
    }
}

#[test]
fn membership_fails_for_wrong_leaf_index_or_root() {
    let siblings = numbered_siblings();
    let mut tree = NullifierTree::new([0u8; 32], 0);
    let nullifier = leaf(3);
    tree.insert(nullifier, &siblings).unwrap();
    let root = tree.root();

    assert!(!tree.verify_membership(&leaf(4), 0, &siblings, &root));
    assert!(!tree.verify_membership(&nullifier, 1, &siblings, &root));
    // A root that the tree does not know, although the path hashes to it.
    let other = compute_root(&nullifier, 1, &siblings);
    assert!(!tree.verify_membership(&nullifier, 1, &siblings, &other));
    // A root that the tree knows, to which the path does not hash.
    assert!(tree.is_valid_root(&EMPTY_ROOT));
    assert!(!tree.verify_membership(&nullifier, 0, &siblings, &EMPTY_ROOT));
}

#[test]
fn double_insert_of_a_nullifier_is_rejected_without_change() {
    let siblings = numbered_siblings();
    let mut tree = NullifierTree::new([6u8; 32], 5);
    let nullifier = leaf(9);
    assert!(!tree.nullifier_exists(&nullifier));
    assert_eq!(tree.insert(nullifier, &siblings), Ok(()));
    assert!(tree.nullifier_exists(&nullifier));

    let root = tree.root();
    let recent = tree.recent_roots();
    let next_index = tree.next_index();

    let other_path = empty_siblings();
    assert_eq!(tree.insert(nullifier, &siblings), Err(AshbornError::NullifierAlreadyUsed));
    assert_eq!(tree.insert(nullifier, &other_path), Err(AshbornError::NullifierAlreadyUsed));

    assert_eq!(tree.root(), root);
    assert_eq!(tree.recent_roots(), recent);
    assert_eq!(tree.next_index(), next_index);
    assert_eq!(tree.nullifiers(), &[nullifier]);
    assert_eq!(tree.authority(), [6u8; 32]);
    assert_eq!(tree.bump(), 5);
}

#[test]
fn nullifier_exists_is_exact() {
    let siblings = numbered_siblings();
    let mut tree = NullifierTree::new([0u8; 32], 0);
    for n in 0..40u16 {
        tree.insert(leaf(n), &siblings).unwrap();
    }
    // Every inserted nullifier is found, however old.
    for n in 0..40u16 {
        assert!(tree.nullifier_exists(&leaf(n)));
    }
    // One that differs in a single bit from an inserted one is not.
    let mut near = leaf(0);
    near[31] ^= 0x80;
    assert!(!tree.nullifier_exists(&near));
    assert!(!tree.nullifier_exists(&leaf(40)));
    // Nor is a root mistaken for a nullifier.
    assert!(!tree.nullifier_exists(&tree.root()));
    assert_eq!(tree.next_index(), 40);
    assert_eq!(tree.nullifiers().len(), 40);
}

#[test]
fn recent_root_window_holds_thirty_roots() {
    let siblings = numbered_siblings();
    let mut tree = CommitmentTree::new([0u8; 32], 0);
    let mut roots = vec![tree.root()];
    for n in 0..31u16 {
        tree.insert_commitment(leaf(n), &siblings).unwrap();
        roots.push(tree.root());
    }
    // The root from 31 insertions ago has left the window.
    assert!(!tree.is_valid_root(&roots[0]));
    // The roots of the last 30 insertions, and the current one, are valid.
    for root in roots.iter().skip(1) {
        assert!(tree.is_valid_root(root));
    }
    assert_eq!(tree.recent_roots().len(), 30);
    assert_eq!(tree.recent_roots()[0], roots[30]);
    assert_eq!(tree.recent_roots()[29], roots[1]);
    assert_eq!(tree.root(), roots[31]);
}

#[test]
fn recent_root_window_fills_up_one_by_one() {
    let siblings = numbered_siblings();
    let mut tree = NullifierTree::new([0u8; 32], 0);
    let mut roots = vec![tree.root()];
    for n in 0..30u16 {
        tree.insert(leaf(n), &siblings).unwrap();
        roots.push(tree.root());
        assert_eq!(tree.recent_roots().len(), n as usize + 1);
        // Nothing has been evicted yet.
        for root in roots.iter() {
            assert!(tree.is_valid_root(root));
        }
    }
    tree.insert(leaf(30), &siblings).unwrap();
    assert!(!tree.is_valid_root(&roots[0]));
    assert!(tree.is_valid_root(&roots[1]));
}

#[test]
fn an_empty_leaf_along_the_empty_path_repeats_the_root() {
    // The root does not tell an empty leaf from a missing one, so the old
    // root stays valid for as long as the equal new one does.
    let mut tree = CommitmentTree::new([0u8; 32], 0);
    tree.insert_commitment(ZERO_VALUE, &empty_siblings()).unwrap();
    assert_eq!(tree.root(), EMPTY_ROOT);
    let siblings = numbered_siblings();
    for n in 0..30u16 {
        tree.insert_commitment(leaf(n), &siblings).unwrap();
    }
    assert!(tree.is_valid_root(&EMPTY_ROOT));
    tree.insert_commitment(leaf(30), &siblings).unwrap();
    assert!(!tree.is_valid_root(&EMPTY_ROOT));
}

#[test]
fn siblings_fit_an_empty_tree_whatever_they_are() {
    let tree = NullifierTree::new([0u8; 32], 0);
    assert_eq!(tree.verify_siblings_for_insert(&numbered_siblings()), Ok(true));
    assert_eq!(tree.verify_siblings_for_insert(&empty_siblings()), Ok(true));
}

#[test]
fn siblings_fit_when_an_empty_leaf_hashes_to_a_valid_root() {
    let mut tree = NullifierTree::new([0u8; 32], 0);
    let first = leaf(1);
    tree.insert(first, &empty_siblings()).unwrap();

    // The path of index 1 in a tree with one leaf: the leaf, then the empty
    // subtrees.
    let mut fitting = empty_siblings();
    fitting[0] = first;
    assert_eq!(tree.verify_siblings_for_insert(&fitting), Ok(true));
    assert_eq!(tree.verify_siblings_for_insert(&numbered_siblings()), Ok(false));
}

#[test]
fn ring_remembers_newest_first() {
    let mut ring = RootRing::new();
    assert_eq!(ring.len(), 0);
    assert!(!ring.contains(&[0u8; 32]));
    ring.push([1u8; 32]);
    ring.push([2u8; 32]);
    ring.push([3u8; 32]);
    assert_eq!(ring.len(), 3);
    assert_eq!(ring.get(0), [3u8; 32]);
    assert_eq!(ring.get(1), [2u8; 32]);
    assert_eq!(ring.get(2), [1u8; 32]);
    assert_eq!(ring.to_vec(), vec![[3u8; 32], [2u8; 32], [1u8; 32]]);
    assert!(ring.contains(&[2u8; 32]));
    assert!(!ring.contains(&[4u8; 32]));
    assert!(!ring.contains(&[0u8; 32]));
}

#[test]
fn ring_evicts_the_oldest_when_full() {
    let mut ring = RootRing::new();
    for n in 0..30u16 {
        ring.push(leaf(n));
    }
    assert_eq!(ring.len(), 30);
    assert!(ring.contains(&leaf(0)));
    ring.push(leaf(30));
    assert_eq!(ring.len(), 30);
    assert!(!ring.contains(&leaf(0)));
    assert!(ring.contains(&leaf(1)));
    assert_eq!(ring.get(0), leaf(30));
    assert_eq!(ring.get(29), leaf(1));
    for n in 31..100u16 {
        ring.push(leaf(n));
    }
    assert_eq!(ring.len(), 30);
    for n in 0..70u16 {
        assert!(!ring.contains(&leaf(n)));
    }
    for n in 70..100u16 {
        assert!(ring.contains(&leaf(n)));
        assert_eq!(ring.get(99 - n as usize), leaf(n));
    }
}

#[test]
fn ring_from_slice_keeps_the_newest_thirty() {
    let roots: Vec<[u8; 32]> = (0..35u16).map(leaf).collect();
    let ring = RootRing::from_slice(&roots);
    assert_eq!(ring.len(), 30);
    assert_eq!(ring.to_vec(), roots[..30].to_vec());

    let ring = RootRing::from_slice(&roots[..3]);
    assert_eq!(ring.to_vec(), roots[..3].to_vec());
    assert_eq!(RootRing::from_slice(&[]).len(), 0);
}

#[test]
fn trees_are_restored_from_their_parts() {
    let siblings = numbered_siblings();
    let mut tree = NullifierTree::new([1u8; 32], 9);
    for n in 0..33u16 {
        tree.insert(leaf(n), &siblings).unwrap();
    }
    let restored = NullifierTree::from_parts(
        tree.authority(),
        tree.root(),
        &tree.recent_roots(),
        tree.nullifiers().to_vec(),
        tree.bump(),
    )
    .unwrap();
    assert_eq!(restored.root(), tree.root());
    assert_eq!(restored.next_index(), 33);
    assert_eq!(restored.recent_roots(), tree.recent_roots());
    assert_eq!(restored.nullifiers(), tree.nullifiers());
    assert_eq!(restored.authority(), [1u8; 32]);
    assert_eq!(restored.bump(), 9);
    assert!(restored.nullifier_exists(&leaf(0)));

    let mut commitments = CommitmentTree::new([2u8; 32], 8);
    commitments.insert_commitment(leaf(1), &siblings).unwrap();
    let restored = CommitmentTree::from_parts(
        commitments.authority(),
        commitments.root(),
        commitments.next_index(),
        &commitments.recent_roots(),
        commitments.bump(),
    )
    .unwrap();
    assert_eq!(restored.root(), commitments.root());
    assert_eq!(restored.next_index(), 1);
    assert_eq!(restored.recent_roots(), vec![EMPTY_ROOT]);
    assert_eq!(restored.authority(), [2u8; 32]);
    assert_eq!(restored.bump(), 8);
}

#[test]
fn trees_are_not_restored_from_unsound_parts() {
    let too_many: Vec<[u8; 32]> = (0..31u16).map(leaf).collect();
    assert!(CommitmentTree::from_parts([0u8; 32], [1u8; 32], 40, &too_many, 0).is_none());
    assert!(CommitmentTree::from_parts([0u8; 32], [1u8; 32], 40, &too_many[..30], 0).is_some());
    assert!(
        NullifierTree::from_parts([0u8; 32], [1u8; 32], &too_many, vec![leaf(1)], 0).is_none()
    );
    assert!(NullifierTree::from_parts(
        [0u8; 32],
        [1u8; 32],
        &[],
        vec![leaf(1), leaf(2), leaf(1)],
        0
    )
    .is_none());
    assert!(
        NullifierTree::from_parts([0u8; 32], [1u8; 32], &[], vec![leaf(1), leaf(2)], 0).is_some()
    );
}

#[test]
fn duplicates_are_found() {
    assert!(!has_duplicates(&[]));
    assert!(!has_duplicates(&[leaf(1)]));
    assert!(!has_duplicates(&[leaf(1), leaf(2), leaf(3)]));
    assert!(has_duplicates(&[leaf(1), leaf(1)]));
    assert!(has_duplicates(&[leaf(1), leaf(2), leaf(3), leaf(2)]));
    assert!(has_duplicates(&[leaf(3), leaf(2), leaf(1), leaf(3)]));
}
