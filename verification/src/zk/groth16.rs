//! Groth16 proof verification over the BN254 curve.
//!
//! A proof is the three points `A` (G1), `B` (G2) and `C` (G1). With the
//! public inputs folded into `L = IC[0] + sum(input[i] * IC[i + 1])`, the
//! proof is accepted when the product of pairings
//! `e(-A, B) * e(alpha, beta) * e(L, gamma) * e(C, delta)` is one.
//!
//! The curve arithmetic itself is done by the `solana_bn254` crate. What it
//! returns is named here, not defined; everything around it is verified.

use vstd::prelude::*;
use crate::bytes::{
    append, be_bytes, be_value, lemma_be_bytes_of_value, lemma_be_value_bound,
    lemma_be_value_prepend, radix, rows,
};
use crate::errors::AshbornError;
use crate::zk::poseidon::{amount_to_bytes, padded_le};
use crate::zk::vkeys::{
    range_key, range_vk, shield_key, shield_vk, transfer_key, transfer_vk, VerifyingKeyView,
};
use solana_bn254::AltBn128Error;

verus! {

/// Groth16 proof size: A (64) + B (128) + C (64) = 256 bytes.
pub const PROOF_SIZE: usize = 256;

/// Minimum proof length: a shorter proof is refused before any curve point
/// is parsed.
pub const MIN_PROOF_LENGTH: usize = 256;

/// The modulus `p` of the base field of BN254, big-endian.
pub const FIELD_MODULUS: [u8; 32] = [
    0x30, 0x64, 0x4e, 0x72, 0xe1, 0x31, 0xa0, 0x29, 0xb8, 0x50, 0x45, 0xb6, 0x81, 0x81, 0x58, 0x5d,
    0x97, 0x81, 0x6a, 0x91, 0x68, 0x71, 0xca, 0x8d, 0x3c, 0x20, 0x8c, 0x16, 0xd8, 0x7c, 0xfd, 0x47,
];

/// The error type of the curve operations of `solana_bn254`. Its variants
/// are not looked at: every failure of a curve operation is one failure
/// here.
#[verifier::external_type_specification]
#[verifier::external_body]
pub struct ExAltBn128Error(AltBn128Error);

/// What the G1 addition of `solana_bn254` makes of `input`: the bytes of the
/// sum, or nothing where the operation fails.
pub uninterp spec fn g1_sum(input: Seq<u8>) -> Option<Seq<u8>>;

/// What the G1 scalar multiplication of `solana_bn254` makes of `input`: the
/// bytes of the product, or nothing where the operation fails.
pub uninterp spec fn g1_scalar_product(input: Seq<u8>) -> Option<Seq<u8>>;

/// What the pairing check of `solana_bn254` makes of `input`: the bytes of
/// its answer, or nothing where the operation fails.
pub uninterp spec fn pairing_check(input: Seq<u8>) -> Option<Seq<u8>>;

/// Calls `solana_bn254::prelude::alt_bn128_addition`.
///
/// Trusted: whether the call succeeds and the bytes it returns depend on
/// `input` alone, and are what `g1_sum` names; a sum that is returned has 64
/// bytes (x, then y, each big-endian).
#[verifier::external_body]
fn bn128_addition(input: &[u8]) -> (outcome: Result<Vec<u8>, AltBn128Error>)
    ensures
        outcome matches Ok(sum) ==> g1_sum(input@) == Some(sum@) && sum@.len() == 64,
        outcome is Err ==> g1_sum(input@) is None,
{
    solana_bn254::prelude::alt_bn128_addition(input)
}

/// Calls `solana_bn254::prelude::alt_bn128_multiplication`.
///
/// Trusted: whether the call succeeds and the bytes it returns depend on
/// `input` alone, and are what `g1_scalar_product` names; a product that is
/// returned has 64 bytes (x, then y, each big-endian).
#[verifier::external_body]
fn bn128_multiplication(input: &[u8]) -> (outcome: Result<Vec<u8>, AltBn128Error>)
    ensures
        outcome matches Ok(product) ==> g1_scalar_product(input@) == Some(product@)
            && product@.len() == 64,
        outcome is Err ==> g1_scalar_product(input@) is None,
{
    solana_bn254::prelude::alt_bn128_multiplication(input)
}

/// Calls `solana_bn254::prelude::alt_bn128_pairing`.
///
/// Trusted: whether the call succeeds and the bytes it returns depend on
/// `input` alone, and are what `pairing_check` names; an answer that is
/// returned has 32 bytes.
#[verifier::external_body]
fn bn128_pairing(input: &[u8]) -> (outcome: Result<Vec<u8>, AltBn128Error>)
    ensures
        outcome matches Ok(answer) ==> pairing_check(input@) == Some(answer@) && answer@.len()
            == 32,
        outcome is Err ==> pairing_check(input@) is None,
{
    solana_bn254::prelude::alt_bn128_pairing(input)
}

/// The sum of two G1 points, where the curve operation gives one.
pub open spec fn g1_add(left: Seq<u8>, right: Seq<u8>) -> Option<Seq<u8>> {
    g1_sum(left + right)
}

/// The multiple of a G1 point by a scalar, where the curve operation gives
/// one.
pub open spec fn g1_mul(point: Seq<u8>, scalar: Seq<u8>) -> Option<Seq<u8>> {
    g1_scalar_product(point + scalar)
}

/// Whether an answer of the pairing check says that the product of pairings
/// is one: its 32 bytes end in the byte 1.
pub open spec fn says_one(answer: Seq<u8>) -> bool {
    answer.len() == 32 && answer[31] == 1
}

/// The verdict of the pairing check on `input`: a failure of the curve
/// operation fails the verification.
pub open spec fn pairing_accepts(input: Seq<u8>) -> Result<bool, AshbornError> {
    match pairing_check(input) {
        Some(answer) => Ok(says_one(answer)),
        None => Err(AshbornError::ProofVerificationFailed),
    }
}

/// The number `p`.
pub open spec fn field_modulus() -> nat {
    be_value(FIELD_MODULUS@)
}

/// The 32 bytes of `p - y` modulo 2^256, for the 32-byte number `y`.
pub open spec fn negated_ordinate(y: Seq<u8>) -> Seq<u8> {
    be_bytes(((field_modulus() + radix(32) - be_value(y)) % (radix(32) as int)) as nat, 32)
}

/// The point with the abscissa of `point` and the negated ordinate.
pub open spec fn negated_point(point: Seq<u8>) -> Seq<u8> {
    point.subrange(0, 32) + negated_ordinate(point.subrange(32, 64))
}

/// The point `L = IC[0] + sum(scalars[i] * IC[i + 1])`, added up in the order
/// of the scalars; nothing where a curve operation on the way fails.
pub open spec fn linear_combination(scalars: Seq<Seq<u8>>, ic: Seq<Seq<u8>>) -> Option<Seq<u8>>
    decreases scalars.len(),
{
    if scalars.len() == 0 {
        Some(ic[0])
    } else {
        match linear_combination(scalars.drop_last(), ic) {
            None => None,
            Some(partial) => match g1_mul(ic[scalars.len() as int], scalars.last()) {
                None => None,
                Some(term) => g1_add(partial, term),
            },
        }
    }
}

/// The four pairs of points that the pairing check is asked about:
/// `(-A, B)`, `(alpha, beta)`, `(L, gamma)` and `(C, delta)`.
pub open spec fn pairing_input(
    proof: Seq<u8>,
    alpha_g1: Seq<u8>,
    beta_g2: Seq<u8>,
    gamma_g2: Seq<u8>,
    delta_g2: Seq<u8>,
    l_point: Seq<u8>,
) -> Seq<u8> {
    negated_point(proof.subrange(0, 64)) + proof.subrange(64, 192) + alpha_g1 + beta_g2 + l_point
        + gamma_g2 + proof.subrange(192, 256) + delta_g2
}

/// The verdict of the Groth16 verification of `proof` for the public inputs
/// `inputs` under a verification key.
///
/// A key whose IC points are not one more than the inputs, and a proof of
/// fewer than 256 bytes, are refused without any curve operation. A curve
/// operation that fails is an error. Otherwise the pairing check decides.
pub open spec fn groth16_verdict(
    proof: Seq<u8>,
    inputs: Seq<Seq<u8>>,
    alpha_g1: Seq<u8>,
    beta_g2: Seq<u8>,
    gamma_g2: Seq<u8>,
    delta_g2: Seq<u8>,
    ic: Seq<Seq<u8>>,
) -> Result<bool, AshbornError> {
    if ic.len() != inputs.len() + 1 || proof.len() < PROOF_SIZE {
        Ok(false)
    } else {
        match linear_combination(inputs, ic) {
            None => Err(AshbornError::ProofVerificationFailed),
            Some(l_point) => pairing_accepts(
                pairing_input(proof, alpha_g1, beta_g2, gamma_g2, delta_g2, l_point),
            ),
        }
    }
}

/// The verdict of the Groth16 verification of `proof` for the public inputs
/// `inputs` under the verification key `key`.
pub open spec fn verdict_under(key: VerifyingKeyView, proof: Seq<u8>, inputs: Seq<Seq<u8>>) -> Result<
    bool,
    AshbornError,
> {
    groth16_verdict(
        proof,
        inputs,
        key.alpha_g1,
        key.beta_g2,
        key.gamma_g2,
        key.delta_g2,
        key.ic,
    )
}

/// The public inputs of a transfer proof, in the order of the circuit.
pub open spec fn transfer_inputs(
    input_commitment: Seq<u8>,
    nullifier: Seq<u8>,
    output_commitment: Seq<u8>,
    change_commitment: Seq<u8>,
    merkle_root: Seq<u8>,
) -> Seq<Seq<u8>> {
    seq![input_commitment, nullifier, output_commitment, change_commitment, merkle_root]
}

/// The verdict on a transfer proof: a proof below the minimum length is
/// refused, any other is verified under the key of the transfer circuit.
pub open spec fn transfer_verdict(
    proof: Seq<u8>,
    input_commitment: Seq<u8>,
    nullifier: Seq<u8>,
    output_commitment: Seq<u8>,
    change_commitment: Seq<u8>,
    merkle_root: Seq<u8>,
) -> Result<bool, AshbornError> {
    if proof.len() < MIN_PROOF_LENGTH {
        Ok(false)
    } else {
        verdict_under(
            transfer_key(),
            proof,
            transfer_inputs(
                input_commitment,
                nullifier,
                output_commitment,
                change_commitment,
                merkle_root,
            ),
        )
    }
}

/// The verdict on a shield proof: a proof below the minimum length is
/// refused, any other is verified under the key of the shield circuit, for
/// the public inputs amount and commitment.
pub open spec fn shield_verdict(proof: Seq<u8>, amount: u64, commitment: Seq<u8>) -> Result<
    bool,
    AshbornError,
> {
    if proof.len() < MIN_PROOF_LENGTH {
        Ok(false)
    } else {
        verdict_under(shield_key(), proof, seq![padded_le(amount), commitment])
    }
}

/// The verdict on a range proof: a proof below the minimum length and an
/// empty range are refused, any other proof is verified under the key of the
/// range circuit, for the public inputs commitment, lower and upper bound.
pub open spec fn range_verdict(
    proof: Seq<u8>,
    commitment: Seq<u8>,
    min_value: u64,
    max_value: u64,
) -> Result<bool, AshbornError> {
    if proof.len() < MIN_PROOF_LENGTH || min_value > max_value {
        Ok(false)
    } else {
        verdict_under(
            range_key(),
            proof,
            seq![commitment, padded_le(min_value), padded_le(max_value)],
        )
    }
}

/// Where the sum over the first scalars is not to be had, the whole sum is
/// not either.
pub proof fn lemma_combination_fails_with_prefix(
    scalars: Seq<Seq<u8>>,
    ic: Seq<Seq<u8>>,
    count: nat,
)
    requires
        count <= scalars.len(),
        linear_combination(scalars.take(count as int), ic) is None,
    ensures
        linear_combination(scalars, ic) is None,
    decreases scalars.len() - count,
{
    if count < scalars.len() {
        assert(scalars.take(count as int + 1).drop_last() =~= scalars.take(count as int));
        lemma_combination_fails_with_prefix(scalars, ic, count + 1);
    } else {
        assert(scalars.take(count as int) =~= scalars);
    }
}

/// Whatever the verification of a transfer proof fails with, it is a failed
/// verification; and a proof below the minimum length is not accepted.
pub proof fn lemma_transfer_verdict_errors(
    proof: Seq<u8>,
    input_commitment: Seq<u8>,
    nullifier: Seq<u8>,
    output_commitment: Seq<u8>,
    change_commitment: Seq<u8>,
    merkle_root: Seq<u8>,
)
    ensures
        transfer_verdict(
            proof,
            input_commitment,
            nullifier,
            output_commitment,
            change_commitment,
            merkle_root,
        ) matches Err(e) ==> e == AshbornError::ProofVerificationFailed,
        proof.len() < MIN_PROOF_LENGTH ==> transfer_verdict(
            proof,
            input_commitment,
            nullifier,
            output_commitment,
            change_commitment,
            merkle_root,
        ) == Ok::<bool, AshbornError>(false),
{
}

/// Take the point out of what a G1 operation returned.
///
/// A failure of the curve operation, or a result that is not a point of 64
/// bytes, fails the verification.
pub fn g1_point_from(outcome: Result<Vec<u8>, AltBn128Error>) -> (result: Result<
    [u8; 64],
    AshbornError,
>)
    ensures
        match outcome {
            Ok(bytes) => if bytes@.len() == 64 {
                result matches Ok(point) && point@ == bytes@
            } else {
                result == Err::<[u8; 64], AshbornError>(AshbornError::ProofVerificationFailed)
            },
            Err(_) => result == Err::<[u8; 64], AshbornError>(
                AshbornError::ProofVerificationFailed,
            ),
        },
{
    match outcome {
        Ok(bytes) => {
            if bytes.len() != 64 {
                return Err(AshbornError::ProofVerificationFailed);
            }
            let mut point = [0u8; 64];
            let mut i: usize = 0;
            while i < 64
                invariant
                    i <= 64,
                    bytes@.len() == 64,
                    forall|j: int| 0 <= j < i ==> point@[j] == bytes@[j],
                decreases 64 - i,
            {
                point[i] = bytes[i];
                i += 1;
            }
            assert(point@ =~= bytes@);
            Ok(point)
        },
        Err(_) => Err(AshbornError::ProofVerificationFailed),
    }
}

/// Read the verdict out of what the pairing check returned.
///
/// A failure of the curve operation fails the verification; an answer says
/// yes only if it says that the product is one.
pub fn pairing_verdict(outcome: Result<Vec<u8>, AltBn128Error>) -> (result: Result<
    bool,
    AshbornError,
>)
    ensures
        match outcome {
            Ok(answer) => result == Ok::<bool, AshbornError>(says_one(answer@)),
            Err(_) => result == Err::<bool, AshbornError>(AshbornError::ProofVerificationFailed),
        },
{
    match outcome {
        Ok(answer) => Ok(answer.len() == 32 && answer[31] == 1),
        Err(_) => Err(AshbornError::ProofVerificationFailed),
    }
}

/// G1 point addition.
pub fn alt_bn128_g1_add(left: &[u8; 64], right: &[u8; 64]) -> (result: Result<
    [u8; 64],
    AshbornError,
>)
    ensures
        match g1_add(left@, right@) {
            Some(sum) => result matches Ok(point) && point@ == sum,
            None => result == Err::<[u8; 64], AshbornError>(
                AshbornError::ProofVerificationFailed,
            ),
        },
{
    let mut input: Vec<u8> = Vec::with_capacity(128);
    append(&mut input, left);
    append(&mut input, right);
    g1_point_from(bn128_addition(input.as_slice()))
}

/// G1 scalar multiplication.
pub fn alt_bn128_g1_mul(point: &[u8; 64], scalar: &[u8; 32]) -> (result: Result<
    [u8; 64],
    AshbornError,
>)
    ensures
        match g1_mul(point@, scalar@) {
            Some(product) => result matches Ok(scaled) && scaled@ == product,
            None => result == Err::<[u8; 64], AshbornError>(
                AshbornError::ProofVerificationFailed,
            ),
        },
{
    let mut input: Vec<u8> = Vec::with_capacity(96);
    append(&mut input, point);
    append(&mut input, scalar);
    g1_point_from(bn128_multiplication(input.as_slice()))
}

/// Pairing check: whether the product of the pairings of the given pairs of
/// points is one.
pub fn alt_bn128_pairing(input: &[u8]) -> (result: Result<bool, AshbornError>)
    ensures
        result == pairing_accepts(input@),
{
    pairing_verdict(bn128_pairing(input))
}

/// Negate a G1 point: the abscissa stays, the ordinate `y` becomes `p - y`,
/// computed byte by byte from the least significant one with a borrow.
pub fn negate_g1_point(point: &[u8]) -> (result: Result<[u8; 64], AshbornError>)
    requires
        point@.len() >= 64,
    ensures
        result matches Ok(negated) && negated@ == negated_point(point@),
{
    let mut result = [0u8; 64];
    let mut k: usize = 0;
    while k < 32
        invariant
            k <= 32,
            point@.len() >= 64,
            forall|j: int| 0 <= j < k ==> result@[j] == point@[j],
        decreases 32 - k,
    {
        result[k] = point[k];
        k += 1;
    }
    let ghost modulus = FIELD_MODULUS@;
    let ghost y = point@.subrange(32, 64);
    let mut borrow: u16 = 0;
    let mut i: usize = 32;
    assert(result@.subrange(64, 64) =~= Seq::<u8>::empty());
    assert(y.subrange(32, 32) =~= Seq::<u8>::empty());
    assert(modulus.subrange(32, 32) =~= Seq::<u8>::empty());
    while i > 0
        invariant
            i <= 32,
            borrow <= 1,
            point@.len() >= 64,
            modulus == FIELD_MODULUS@,
            y == point@.subrange(32, 64),
            forall|j: int| 0 <= j < 32 ==> result@[j] == point@[j],
            be_value(result@.subrange(32 + i, 64)) + be_value(y.subrange(i as int, 32))
                == be_value(modulus.subrange(i as int, 32)) + borrow * radix((32 - i) as nat),
        decreases i,
    {
        let ghost before = result@;
        let ghost weight = radix((32 - i) as nat);
        i -= 1;
        let diff: u16 = (FIELD_MODULUS[i] as u16) + 256 - (point[32 + i] as u16) - borrow;
        let digit: u8 = (diff % 256) as u8;
        let carry: u16 = 1 - diff / 256;
        result[32 + i] = digit;
        proof {
            assert(result@.subrange(32 + i, 64) =~= seq![digit] + before.subrange(32 + i + 1, 64));
            assert(y.subrange(i as int, 32) =~= seq![y[i as int]] + y.subrange(i + 1, 32));
            assert(modulus.subrange(i as int, 32) =~= seq![modulus[i as int]] + modulus.subrange(
                i + 1,
                32,
            ));
            lemma_be_value_prepend(digit, before.subrange(32 + i + 1, 64));
            lemma_be_value_prepend(y[i as int], y.subrange(i + 1, 32));
            lemma_be_value_prepend(modulus[i as int], modulus.subrange(i + 1, 32));
            assert(radix((32 - i) as nat) == 256 * weight);
            assert(digit + y[i as int] + borrow == modulus[i as int] + 256 * carry);
            assert(digit * weight + y[i as int] * weight + borrow * weight == modulus[i as int]
                * weight + carry * (256 * weight)) by (nonlinear_arith)
                requires
                    digit + y[i as int] + borrow == modulus[i as int] + 256 * carry,
            ;
        }
        borrow = carry;
    }
    proof {
        let ordinate = result@.subrange(32, 64);
        assert(y.subrange(0, 32) =~= y);
        assert(modulus.subrange(0, 32) =~= modulus);
        lemma_be_value_bound(ordinate);
        lemma_be_value_bound(y);
        lemma_be_bytes_of_value(ordinate);
        let r = radix(32);
        let v = be_value(ordinate);
        assert(borrow * r == if borrow == 0 {
            0
        } else {
            r as int
        }) by (nonlinear_arith)
            requires
                borrow <= 1,
        ;
        assert(v == (field_modulus() + r - be_value(y)) % (r as int)) by {
            if borrow == 0 {
                vstd::arithmetic::div_mod::lemma_fundamental_div_mod_converse(
                    field_modulus() + r - be_value(y),
                    r as int,
                    1,
                    v as int,
                );
            } else {
                vstd::arithmetic::div_mod::lemma_fundamental_div_mod_converse(
                    field_modulus() + r - be_value(y),
                    r as int,
                    0,
                    v as int,
                );
            }
        }
        assert(result@ =~= negated_point(point@));
    }
    Ok(result)
}

/// Verify a Groth16 proof for a transfer, for the public inputs source
/// commitment, nullifier, output commitment, change commitment and Merkle
/// root.
pub fn verify_transfer_proof(
    proof_bytes: &[u8],
    input_commitment: &[u8; 32],
    nullifier: &[u8; 32],
    output_commitment: &[u8; 32],
    change_commitment: &[u8; 32],
    merkle_root: &[u8; 32],
) -> (result: Result<bool, AshbornError>)
    ensures
        result == transfer_verdict(
            proof_bytes@,
            input_commitment@,
            nullifier@,
            output_commitment@,
            change_commitment@,
            merkle_root@,
        ),
{
    // The public inputs, in the order of the circuit's public signals.
    let public_inputs: [[u8; 32]; 5] = [
        *input_commitment,
        *nullifier,
        *output_commitment,
        *change_commitment,
        *merkle_root,
    ];
    assert(rows(public_inputs@) =~= transfer_inputs(
        input_commitment@,
        nullifier@,
        output_commitment@,
        change_commitment@,
        merkle_root@,
    ));

    match verify_proof_structure(proof_bytes, &public_inputs) {
        Ok(true) => {},
        other => {
            return other;
        },
    }
    let key = transfer_vk();
    verify_groth16_proof(
        proof_bytes,
        &public_inputs,
        &key.alpha_g1,
        &key.beta_g2,
        &key.gamma_g2,
        &key.delta_g2,
        key.ic.as_slice(),
    )
}

/// Verify a shield proof (deposit), for the public inputs amount and
/// commitment.
pub fn verify_shield_proof(proof_bytes: &[u8], amount: u64, commitment: &[u8; 32]) -> (result:
    Result<bool, AshbornError>)
    ensures
        result == shield_verdict(proof_bytes@, amount, commitment@),
{
    // The amount in the form of a field element.
    let amount_bytes = amount_to_bytes(amount);

    let public_inputs: [[u8; 32]; 2] = [amount_bytes, *commitment];
    assert(rows(public_inputs@) =~= seq![padded_le(amount), commitment@]);

    match verify_proof_structure(proof_bytes, &public_inputs) {
        Ok(true) => {},
        other => {
            return other;
        },
    }
    let key = shield_vk();
    verify_groth16_proof(
        proof_bytes,
        &public_inputs,
        &key.alpha_g1,
        &key.beta_g2,
        &key.gamma_g2,
        &key.delta_g2,
        key.ic.as_slice(),
    )
}

/// Verify a range proof for selective disclosure, for the public inputs
/// commitment, lower bound and upper bound.
pub fn verify_range_proof(
    proof_bytes: &[u8],
    commitment: &[u8; 32],
    min_value: u64,
    max_value: u64,
) -> (result: Result<bool, AshbornError>)
    ensures
        result == range_verdict(proof_bytes@, commitment@, min_value, max_value),
{
    let min_bytes = amount_to_bytes(min_value);
    let max_bytes = amount_to_bytes(max_value);
    let public_inputs: [[u8; 32]; 3] = [*commitment, min_bytes, max_bytes];
    assert(rows(public_inputs@) =~= seq![
        commitment@,
        padded_le(min_value),
        padded_le(max_value),
    ]);

    match verify_proof_structure(proof_bytes, &public_inputs) {
        Ok(true) => {},
        other => {
            return other;
        },
    }
    if min_value > max_value {
        return Ok(false);
    }
    let key = range_vk();
    verify_groth16_proof(
        proof_bytes,
        &public_inputs,
        &key.alpha_g1,
        &key.beta_g2,
        &key.gamma_g2,
        &key.delta_g2,
        key.ic.as_slice(),
    )
}

/// Groth16 verification: the pairing check
/// `e(-A, B) * e(alpha, beta) * e(L, gamma) * e(C, delta) = 1`,
/// where `L` is the linear combination of the IC points by the public
/// inputs.
pub fn verify_groth16_proof<const N: usize>(
    proof_bytes: &[u8],
    public_inputs: &[[u8; 32]; N],
    alpha_g1: &[u8; 64],
    beta_g2: &[u8; 128],
    gamma_g2: &[u8; 128],
    delta_g2: &[u8; 128],
    ic: &[[u8; 64]],
) -> (result: Result<bool, AshbornError>)
    ensures
        result == groth16_verdict(
            proof_bytes@,
            rows(public_inputs@),
            alpha_g1@,
            beta_g2@,
            gamma_g2@,
            delta_g2@,
            rows(ic@),
        ),
{
    // One IC point for each public input, and one more.
    if ic.len() == 0 || ic.len() - 1 != N {
        return Ok(false);
    }
    // The proof holds A (G1), B (G2) and C (G1).
    if proof_bytes.len() < PROOF_SIZE {
        return Ok(false);
    }
    let proof_a = &proof_bytes[0..64];
    let proof_b = &proof_bytes[64..192];
    let proof_c = &proof_bytes[192..256];

    // L = IC[0] + sum(public_input[i] * IC[i + 1])
    let l_point = match compute_linear_combination(public_inputs, ic) {
        Ok(point) => point,
        Err(e) => {
            return Err(e);
        },
    };

    // Negate A, so that the check is a product that must be one.
    let neg_a = match negate_g1_point(proof_a) {
        Ok(point) => point,
        Err(e) => {
            return Err(e);
        },
    };

    // Four pairs of 192 bytes each.
    let mut pairing_input: Vec<u8> = Vec::with_capacity(768);

    // Pair 1: (-A, B)
    append(&mut pairing_input, &neg_a);
    append(&mut pairing_input, proof_b);

    // Pair 2: (alpha, beta)
    append(&mut pairing_input, alpha_g1);
    append(&mut pairing_input, beta_g2);

    // Pair 3: (L, gamma)
    append(&mut pairing_input, &l_point);
    append(&mut pairing_input, gamma_g2);

    // Pair 4: (C, delta)
    append(&mut pairing_input, proof_c);
    append(&mut pairing_input, delta_g2);

    alt_bn128_pairing(pairing_input.as_slice())
}

/// Compute the linear combination `L = IC[0] + sum(scalar[i] * IC[i + 1])`.
///
/// There must be an IC point for each scalar, and one more. Points beyond
/// these are not read.
pub fn compute_linear_combination<const N: usize>(scalars: &[[u8; 32]; N], ic: &[[u8; 64]]) -> (result:
    Result<[u8; 64], AshbornError>)
    requires
        ic@.len() >= N + 1,
    ensures
        match linear_combination(rows(scalars@), rows(ic@)) {
            Some(l_point) => result matches Ok(point) && point@ == l_point,
            None => result == Err::<[u8; 64], AshbornError>(
                AshbornError::ProofVerificationFailed,
            ),
        },
{
    let ghost all = rows(scalars@);
    // Start with IC[0].
    let mut result = ic[0];
    let mut i: usize = 0;
    assert(all.take(0) =~= Seq::<Seq<u8>>::empty());
    while i < N
        invariant
            i <= N,
            ic@.len() >= N + 1,
            all == rows(scalars@),
            linear_combination(all.take(i as int), rows(ic@)) == Some(result@),
        decreases N - i,
    {
        proof {
            let prefix = all.take(i + 1);
            assert(prefix.drop_last() =~= all.take(i as int));
            assert(prefix.last() == scalars@[i as int]@);
        }
        // scalar * IC[i + 1]
        let scaled = match alt_bn128_g1_mul(&ic[i + 1], &scalars[i]) {
            Ok(point) => point,
            Err(e) => {
                proof {
                    lemma_combination_fails_with_prefix(all, rows(ic@), (i + 1) as nat);
                }
                return Err(e);
            },
        };
        // Add it to what was summed up so far.
        result = match alt_bn128_g1_add(&result, &scaled) {
            Ok(point) => point,
            Err(e) => {
                proof {
                    lemma_combination_fails_with_prefix(all, rows(ic@), (i + 1) as nat);
                }
                return Err(e);
            },
        };
        i += 1;
    }
    assert(all.take(N as int) =~= all);
    Ok(result)
}

/// Structural validation of a proof: it has the minimum length. The public
/// inputs take no part in it.
#[allow(unused_variables)]
pub fn verify_proof_structure<const N: usize>(
    proof_bytes: &[u8],
    public_inputs: &[[u8; 32]; N],
) -> (result: Result<bool, AshbornError>)
    ensures
        result == Ok::<bool, AshbornError>(proof_bytes@.len() >= MIN_PROOF_LENGTH),
{
    Ok(proof_bytes.len() >= MIN_PROOF_LENGTH)
}

} // verus!
