//! The packed bit storage of the `bit-vec` crate, as the grid uses it.
//!
//! Nothing in this file is proved: each function states what the method of
//! `bit_vec::BitVec` that it calls is documented to do, over the sequence of
//! bits that the vector holds.

use bit_vec::BitVec;
use vstd::prelude::*;

verus! {

/// `bit_vec::BitVec`, declared so that it can stand in fields and
/// signatures. Nothing of its inside is visible to the verifier.
#[verifier::external_type_specification]
#[verifier::external_body]
#[verifier::reject_recursive_types(B)]
pub struct ExBitVec<B>(BitVec<B>);

/// The bits that a `BitVec` holds, from index 0 to its last index.
pub uninterp spec fn bits_of(bv: BitVec<u32>) -> Seq<bool>;

/// `BitVec::from_elem`: a vector of `len` bits, each equal to `bit`.
#[verifier::external_body]
pub(crate) fn bits_from_elem(len: usize, bit: bool) -> (bv: BitVec<u32>)
    ensures
        bits_of(bv) == Seq::new(len as nat, |i: int| bit),
{
    BitVec::from_elem(len, bit)
}

/// `BitVec::len`: the number of bits in the vector.
#[verifier::external_body]
pub(crate) fn bits_len(bv: &BitVec<u32>) -> (len: usize)
    ensures
        len == bits_of(*bv).len(),
{
    bv.len()
}

/// `BitVec::get`: the bit at index `i`, or `None` when `i` is not an index
/// of the vector.
#[verifier::external_body]
pub(crate) fn bits_get(bv: &BitVec<u32>, i: usize) -> (bit: Option<bool>)
    ensures
        bit == (if i < bits_of(*bv).len() {
            Some(bits_of(*bv)[i as int])
        } else {
            None::<bool>
        }),
{
    bv.get(i)
}

/// `BitVec::set`: writes `x` at index `i` and leaves every other bit as it
/// was. The method panics when `i` is not an index of the vector.
#[verifier::external_body]
pub(crate) fn bits_set(bv: &mut BitVec<u32>, i: usize, x: bool)
    requires
        i < bits_of(*old(bv)).len(),
    ensures
        bits_of(*final(bv)) == bits_of(*old(bv)).update(i as int, x),
{
    bv.set(i, x)
}

/// `BitVec::fill`: assigns `bit` to every bit and keeps the length.
#[verifier::external_body]
pub(crate) fn bits_fill(bv: &mut BitVec<u32>, bit: bool)
    ensures
        bits_of(*final(bv)) == Seq::new(bits_of(*old(bv)).len(), |i: int| bit),
{
    bv.fill(bit)
}

/// `BitVec::truncate`: keeps the first `len` bits and drops the rest; a
/// vector that is not longer than `len` is left as it was.
#[verifier::external_body]
pub(crate) fn bits_truncate(bv: &mut BitVec<u32>, len: usize)
    ensures
        bits_of(*final(bv)) == (if len < bits_of(*old(bv)).len() {
            bits_of(*old(bv)).subrange(0, len as int)
        } else {
            bits_of(*old(bv))
        }),
{
    bv.truncate(len)
}

/// `BitVec::grow`: appends `n` copies of `value`. The method panics when the
/// new length does not fit in `usize`.
#[verifier::external_body]
pub(crate) fn bits_grow(bv: &mut BitVec<u32>, n: usize, value: bool)
    requires
        bits_of(*old(bv)).len() + n <= usize::MAX,
    ensures
        bits_of(*final(bv)) == bits_of(*old(bv)) + Seq::new(n as nat, |i: int| value),
{
    bv.grow(n, value)
}

} // verus!
