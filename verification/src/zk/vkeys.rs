//! Groth16 verification keys, one per circuit.
//!
//! A G1 point takes 64 bytes (x, then y), a G2 point 128 bytes, each
//! coordinate big-endian; the point at infinity is written as zero bytes.
//! The keys here are placeholders: the key that a trusted setup produces
//! for a deployed circuit replaces them.

use vstd::prelude::*;
use crate::bytes::rows;

verus! {

/// A verification key: the points alpha (G1), beta, gamma and delta (G2),
/// and the IC points (G1), one more than the circuit has public inputs.
pub struct VerifyingKey {
    /// Alpha point (G1).
    pub alpha_g1: [u8; 64],
    /// Beta point (G2).
    pub beta_g2: [u8; 128],
    /// Gamma point (G2).
    pub gamma_g2: [u8; 128],
    /// Delta point (G2).
    pub delta_g2: [u8; 128],
    /// IC points (G1).
    pub ic: Vec<[u8; 64]>,
}

/// The bytes of a verification key.
pub struct VerifyingKeyView {
    /// Alpha point (G1).
    pub alpha_g1: Seq<u8>,
    /// Beta point (G2).
    pub beta_g2: Seq<u8>,
    /// Gamma point (G2).
    pub gamma_g2: Seq<u8>,
    /// Delta point (G2).
    pub delta_g2: Seq<u8>,
    /// IC points (G1).
    pub ic: Seq<Seq<u8>>,
}

impl View for VerifyingKey {
    type V = VerifyingKeyView;

    open spec fn view(&self) -> VerifyingKeyView {
        VerifyingKeyView {
            alpha_g1: self.alpha_g1@,
            beta_g2: self.beta_g2@,
            gamma_g2: self.gamma_g2@,
            delta_g2: self.delta_g2@,
            ic: rows(self.ic@),
        }
    }
}

/// The point at infinity of G1.
pub open spec fn infinity_g1() -> Seq<u8> {
    Seq::new(64, |i: int| 0u8)
}

/// The point at infinity of G2.
pub open spec fn infinity_g2() -> Seq<u8> {
    Seq::new(128, |i: int| 0u8)
}

/// The generator of G1: the point (1, 2).
pub open spec fn generator_g1() -> Seq<u8> {
    Seq::new(
        64,
        |i: int|
            if i == 31 {
                1u8
            } else if i == 63 {
                2u8
            } else {
                0u8
            },
    )
}

/// The placeholder key with the given alpha for a circuit with `inputs`
/// public inputs: every other point is at infinity.
pub open spec fn placeholder_key(alpha_g1: Seq<u8>, inputs: nat) -> VerifyingKeyView {
    VerifyingKeyView {
        alpha_g1,
        beta_g2: infinity_g2(),
        gamma_g2: infinity_g2(),
        delta_g2: infinity_g2(),
        ic: Seq::new(inputs + 1, |i: int| infinity_g1()),
    }
}

/// The key of the transfer circuit, whose public inputs are source
/// commitment, nullifier, output commitment, change commitment and Merkle
/// root.
pub open spec fn transfer_key() -> VerifyingKeyView {
    placeholder_key(generator_g1(), 5)
}

/// The key of the shield circuit, whose public inputs are amount and
/// commitment.
pub open spec fn shield_key() -> VerifyingKeyView {
    placeholder_key(infinity_g1(), 2)
}

/// The key of the range circuit, whose public inputs are commitment, lower
/// bound and upper bound.
pub open spec fn range_key() -> VerifyingKeyView {
    placeholder_key(infinity_g1(), 3)
}

/// Make the placeholder key with the given alpha for a circuit with
/// `inputs` public inputs.
fn placeholder(alpha_g1: [u8; 64], inputs: usize) -> (vk: VerifyingKey)
    requires
        inputs < 16,
    ensures
        vk@ == placeholder_key(alpha_g1@, inputs as nat),
{
    let mut ic: Vec<[u8; 64]> = Vec::new();
    let mut i: usize = 0;
    while i <= inputs
        invariant
            i <= inputs + 1,
            inputs < 16,
            ic@.len() == i,
            forall|j: int| 0 <= j < i ==> ic@[j]@ == infinity_g1(),
        decreases inputs + 1 - i,
    {
        let point = [0u8; 64];
        assert(point@ =~= infinity_g1());
        ic.push(point);
        i += 1;
    }
    let vk = VerifyingKey {
        alpha_g1,
        beta_g2: [0u8; 128],
        gamma_g2: [0u8; 128],
        delta_g2: [0u8; 128],
        ic,
    };
    assert(vk.beta_g2@ =~= infinity_g2());
    assert(vk@.ic =~= Seq::new((inputs + 1) as nat, |i: int| infinity_g1()));
    vk
}

/// Verification key for the transfer circuit.
pub fn transfer_vk() -> (vk: VerifyingKey)
    ensures
        vk@ == transfer_key(),
{
    let mut alpha_g1 = [0u8; 64];
    alpha_g1[31] = 1;
    alpha_g1[63] = 2;
    assert(alpha_g1@ =~= generator_g1());
    placeholder(alpha_g1, 5)
}

/// Verification key for the shield circuit.
pub fn shield_vk() -> (vk: VerifyingKey)
    ensures
        vk@ == shield_key(),
{
    let alpha_g1 = [0u8; 64];
    assert(alpha_g1@ =~= infinity_g1());
    placeholder(alpha_g1, 2)
}

/// Verification key for the range circuit.
pub fn range_vk() -> (vk: VerifyingKey)
    ensures
        vk@ == range_key(),
{
    let alpha_g1 = [0u8; 64];
    assert(alpha_g1@ =~= infinity_g1());
    placeholder(alpha_g1, 3)
}

} // verus!
