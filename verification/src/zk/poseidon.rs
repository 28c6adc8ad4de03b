//! Hash primitives: the two-to-one compression function, and the commitment
//! and nullifier derived from it.
//!
//! The compression function is Keccak-256 over the 64 bytes `left || right`.
//! Proofs are produced off-chain; this side only needs a hash that every
//! party computes alike.

use vstd::prelude::*;
use crate::bytes::radix;

verus! {

/// The Keccak-256 digest of `data`.
///
/// The function is not defined here: it stands for what the hash function of
/// the Solana program library returns, which depends on the bytes alone.
pub uninterp spec fn keccak256(data: Seq<u8>) -> Seq<u8>;

/// Calls `anchor_lang::solana_program::keccak::hash` and takes the 32 bytes
/// out of the `Hash` it returns.
///
/// Trusted: the result is the Keccak-256 digest of `data`, that is
/// `keccak256(data@)`. Nothing else is claimed of it.
#[verifier::external_body]
fn keccak_digest(data: &[u8]) -> (digest: [u8; 32])
    ensures
        digest@ == keccak256(data@),
{
    anchor_lang::solana_program::keccak::hash(data).to_bytes()
}

/// The compression of two nodes: the digest of `left` followed by `right`.
pub open spec fn hash_pair(left: Seq<u8>, right: Seq<u8>) -> Seq<u8> {
    keccak256(left + right)
}

/// The first `count` base-256 digits of `value`, least significant first.
pub open spec fn le_bytes(value: nat, count: nat) -> Seq<u8>
    decreases count,
{
    if count == 0 {
        Seq::empty()
    } else {
        seq![(value % 256) as u8] + le_bytes(value / 256, (count - 1) as nat)
    }
}

/// A 64-bit value as a 32-byte node: eight little-endian bytes, then 24 zero
/// bytes.
pub open spec fn padded_le(value: u64) -> Seq<u8> {
    le_bytes(value as nat, 8) + Seq::new(24, |i: int| 0u8)
}

/// The commitment to `amount` under the blinding factor `blinding`.
pub open spec fn commitment_of(amount: u64, blinding: Seq<u8>) -> Seq<u8> {
    hash_pair(padded_le(amount), blinding)
}

/// The nullifier of the note at `note_index` under the spend secret `secret`.
pub open spec fn nullifier_of(secret: Seq<u8>, note_index: u64) -> Seq<u8> {
    hash_pair(secret, padded_le(note_index))
}

/// Hash two 32-byte nodes into one.
///
/// The result depends on the two inputs and on their order, and on nothing
/// else: equal inputs always give equal outputs.
pub fn poseidon_hash_2(left: &[u8; 32], right: &[u8; 32]) -> (digest: [u8; 32])
    ensures
        digest@ == hash_pair(left@, right@),
{
    let mut input = [0u8; 64];
    let mut i: usize = 0;
    while i < 32
        invariant
            i <= 32,
            forall|j: int| 0 <= j < i ==> input@[j] == left@[j],
            forall|j: int| 0 <= j < i ==> input@[32 + j] == right@[j],
        decreases 32 - i,
    {
        input[i] = left[i];
        input[i + 32] = right[i];
        i += 1;
    }
    assert(input@ =~= left@ + right@);
    keccak_digest(&input)
}

/// Create a commitment: `C = H(pad(amount), blinding)`.
pub fn create_commitment(amount: u64, blinding: &[u8; 32]) -> (commitment: [u8; 32])
    ensures
        commitment@ == commitment_of(amount, blinding@),
{
    let amount_bytes = amount_to_bytes(amount);
    poseidon_hash_2(&amount_bytes, blinding)
}

/// Generate a nullifier: `N = H(secret, pad(note_index))`.
pub fn generate_nullifier(secret: &[u8; 32], note_index: u64) -> (nullifier: [u8; 32])
    ensures
        nullifier@ == nullifier_of(secret@, note_index),
{
    let index_bytes = amount_to_bytes(note_index);
    poseidon_hash_2(secret, &index_bytes)
}

/// Convert a 64-bit value to a 32-byte node (little-endian, zero-padded).
pub fn amount_to_bytes(amount: u64) -> (bytes: [u8; 32])
    ensures
        bytes@ == padded_le(amount),
{
    let mut bytes = [0u8; 32];
    let mut rest: u64 = amount;
    let mut i: usize = 0;
    while i < 8
        invariant
            i <= 8,
            le_bytes(amount as nat, 8) == bytes@.subrange(0, i as int) + le_bytes(
                rest as nat,
                (8 - i) as nat,
            ),
            forall|j: int| i <= j < 32 ==> bytes@[j] == 0,
        decreases 8 - i,
    {
        let ghost before = bytes@;
        bytes[i] = (rest % 256) as u8;
        assert(bytes@.subrange(0, i + 1) =~= before.subrange(0, i as int) + seq![
            (rest % 256) as u8,
        ]);
        rest = rest / 256;
        i += 1;
    }
    assert(bytes@ =~= bytes@.subrange(0, 8) + Seq::new(24, |i: int| 0u8));
    bytes
}

/// Two values whose first `count` digits agree, and which have no further
/// digits, are equal.
pub proof fn lemma_le_bytes_injective(a: nat, b: nat, count: nat)
    requires
        a < radix(count),
        b < radix(count),
        le_bytes(a, count) == le_bytes(b, count),
    ensures
        a == b,
    decreases count,
{
    if count > 0 {
        let rest = (count - 1) as nat;
        let sa = le_bytes(a, count);
        let sb = le_bytes(b, count);
        assert(sa[0] == (a % 256) as u8);
        assert(sb[0] == (b % 256) as u8);
        assert(sa.drop_first() =~= le_bytes(a / 256, rest));
        assert(sb.drop_first() =~= le_bytes(b / 256, rest));
        lemma_le_bytes_injective(a / 256, b / 256, rest);
    }
}

/// The 32-byte form of a 64-bit value determines the value.
pub proof fn lemma_padded_le_injective(a: u64, b: u64)
    requires
        padded_le(a) == padded_le(b),
    ensures
        a == b,
{
    lemma_padded_le_len(a);
    lemma_padded_le_len(b);
    assert(le_bytes(a as nat, 8) =~= padded_le(a).subrange(0, 8));
    assert(le_bytes(b as nat, 8) =~= padded_le(b).subrange(0, 8));
    assert(radix(8) == 0x1_0000_0000_0000_0000) by {
        reveal_with_fuel(radix, 9);
    }
    lemma_le_bytes_injective(a as nat, b as nat, 8);
}

/// The little-endian digits of a value number as many as were asked for.
pub proof fn lemma_le_bytes_len(value: nat, count: nat)
    ensures
        le_bytes(value, count).len() == count,
    decreases count,
{
    if count > 0 {
        lemma_le_bytes_len(value / 256, (count - 1) as nat);
    }
}

/// The 32-byte form of a 64-bit value has 32 bytes.
pub proof fn lemma_padded_le_len(value: u64)
    ensures
        padded_le(value).len() == 32,
        le_bytes(value as nat, 8).len() == 8,
{
    lemma_le_bytes_len(value as nat, 8);
}

/// Swapping two different nodes changes what is hashed: the two orders of a
/// pair are digests of different byte strings.
pub proof fn lemma_pair_order_matters(a: Seq<u8>, b: Seq<u8>)
    requires
        a.len() == b.len(),
        a != b,
    ensures
        a + b != b + a,
{
    if a + b == b + a {
        assert((a + b).subrange(0, a.len() as int) =~= a);
        assert((b + a).subrange(0, b.len() as int) =~= b);
    }
}

/// Two commitments to one amount under different blinding factors are digests
/// of different byte strings.
pub proof fn lemma_commitment_preimages_differ(amount: u64, blinding1: Seq<u8>, blinding2: Seq<u8>)
    requires
        blinding1 != blinding2,
    ensures
        padded_le(amount) + blinding1 != padded_le(amount) + blinding2,
{
    let pad = padded_le(amount);
    if pad + blinding1 == pad + blinding2 {
        assert((pad + blinding1).subrange(pad.len() as int, (pad + blinding1).len() as int)
            =~= blinding1);
        assert((pad + blinding2).subrange(pad.len() as int, (pad + blinding2).len() as int)
            =~= blinding2);
    }
}

/// Two nullifiers that differ in the secret or in the note index are digests
/// of different byte strings.
pub proof fn lemma_nullifier_preimages_differ(
    secret1: Seq<u8>,
    index1: u64,
    secret2: Seq<u8>,
    index2: u64,
)
    requires
        secret1.len() == secret2.len(),
        secret1 != secret2 || index1 != index2,
    ensures
        secret1 + padded_le(index1) != secret2 + padded_le(index2),
{
    let first = secret1 + padded_le(index1);
    let second = secret2 + padded_le(index2);
    if first == second {
        let n = secret1.len() as int;
        assert(first.subrange(0, n) =~= secret1);
        assert(second.subrange(0, n) =~= secret2);
        assert(first.subrange(n, first.len() as int) =~= padded_le(index1));
        assert(second.subrange(n, second.len() as int) =~= padded_le(index2));
        lemma_padded_le_injective(index1, index2);
    }
}

} // verus!
