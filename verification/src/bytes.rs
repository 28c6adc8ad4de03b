//! Helpers on byte strings: rows of tables, comparison, and the numbers that
//! byte strings stand for.

use vstd::prelude::*;

verus! {

/// The rows of a table of byte rows, each as a sequence of bytes.
pub open spec fn rows<const M: usize>(table: Seq<[u8; M]>) -> Seq<Seq<u8>> {
    Seq::new(table.len(), |i: int| table[i]@)
}

/// The array of `N` zero bytes.
pub open spec fn zero_array<const N: usize>() -> [u8; N] {
    vstd::array::spec_array_fill_for_copy_type::<u8, N>(0u8)
}

/// Whether two byte arrays hold the same bytes.
pub fn array_eq<const N: usize>(a: &[u8; N], b: &[u8; N]) -> (same: bool)
    ensures
        same == (a@ == b@),
{
    let mut i: usize = 0;
    while i < N
        invariant
            i <= N,
            forall|j: int| 0 <= j < i ==> a@[j] == b@[j],
        decreases N - i,
    {
        if a[i] != b[i] {
            return false;
        }
        i += 1;
    }
    assert(a@ =~= b@);
    true
}

/// Append `bytes` to `buffer`.
pub fn append(buffer: &mut Vec<u8>, bytes: &[u8])
    ensures
        final(buffer)@ == old(buffer)@ + bytes@,
{
    let mut i: usize = 0;
    while i < bytes.len()
        invariant
            i <= bytes@.len(),
            buffer@ == old(buffer)@ + bytes@.take(i as int),
        decreases bytes@.len() - i,
    {
        buffer.push(bytes[i]);
        assert(bytes@.take(i + 1) =~= bytes@.take(i as int).push(bytes@[i as int]));
        i += 1;
    }
    assert(bytes@.take(bytes@.len() as int) =~= bytes@);
}

/// 256 to the power `count`.
pub open spec fn radix(count: nat) -> nat
    decreases count,
{
    if count == 0 {
        1
    } else {
        256 * radix((count - 1) as nat)
    }
}

/// The number that `bytes` stands for, most significant byte first.
pub open spec fn be_value(bytes: Seq<u8>) -> nat
    decreases bytes.len(),
{
    if bytes.len() == 0 {
        0
    } else {
        be_value(bytes.drop_last()) * 256 + bytes.last() as nat
    }
}

/// The last `count` base-256 digits of `value`, most significant first.
pub open spec fn be_bytes(value: nat, count: nat) -> Seq<u8>
    decreases count,
{
    if count == 0 {
        Seq::empty()
    } else {
        be_bytes(value / 256, (count - 1) as nat).push((value % 256) as u8)
    }
}

/// A byte string stands for a number below 256 to the power of its length.
pub proof fn lemma_be_value_bound(bytes: Seq<u8>)
    ensures
        be_value(bytes) < radix(bytes.len()),
    decreases bytes.len(),
{
    if bytes.len() > 0 {
        lemma_be_value_bound(bytes.drop_last());
    }
}

/// A byte in front of a byte string adds its value at the weight of the
/// string's length.
pub proof fn lemma_be_value_prepend(first: u8, rest: Seq<u8>)
    ensures
        be_value(seq![first] + rest) == first as nat * radix(rest.len()) + be_value(rest),
    decreases rest.len(),
{
    let whole = seq![first] + rest;
    assert(whole.last() == if rest.len() == 0 {
        first
    } else {
        rest.last()
    });
    if rest.len() == 0 {
        assert(whole.drop_last() =~= Seq::<u8>::empty());
        assert(be_value(whole) == be_value(whole.drop_last()) * 256 + first as nat);
        assert(radix(0) == 1);
    } else {
        let front = rest.drop_last();
        assert(whole.drop_last() =~= seq![first] + front);
        lemma_be_value_prepend(first, front);
        let weight = radix(front.len());
        assert(radix(rest.len()) == 256 * weight);
        assert(be_value(whole) == be_value(seq![first] + front) * 256 + rest.last() as nat);
        assert(be_value(rest) == be_value(front) * 256 + rest.last() as nat);
        assert((first as nat * weight + be_value(front)) * 256 == first as nat * (256 * weight)
            + be_value(front) * 256) by (nonlinear_arith);
    }
}

/// The digits of the number that a byte string stands for are that string.
pub proof fn lemma_be_bytes_of_value(bytes: Seq<u8>)
    ensures
        be_bytes(be_value(bytes), bytes.len()) == bytes,
    decreases bytes.len(),
{
    if bytes.len() > 0 {
        lemma_be_bytes_of_value(bytes.drop_last());
        let value = be_value(bytes);
        assert(value / 256 == be_value(bytes.drop_last()));
        assert(value % 256 == bytes.last() as nat);
        assert(be_bytes(value, bytes.len()) =~= bytes);
    } else {
        assert(be_bytes(be_value(bytes), 0) =~= bytes);
    }
}

} // verus!
