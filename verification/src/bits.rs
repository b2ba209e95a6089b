//! Trusted boundary around `fixedbitset::FixedBitSet`, the packed bit-set
//! that stores the grid's cells. Each wrapper's contract states, over the
//! uninterpreted contents `bit_seq`, what the crate's source shows of the
//! wrapped call.

use vstd::prelude::*;
use fixedbitset::FixedBitSet;

verus! {

#[verifier::external_type_specification]
#[verifier::external_body]
pub struct ExFixedBitSet(FixedBitSet);

/// The bits held by a `FixedBitSet`, in index order: one boolean per bit of
/// its capacity.
pub uninterp spec fn bit_seq(b: FixedBitSet) -> Seq<bool>;

/// Relies on `FixedBitSet::with_capacity`: a bit-set with exactly `bits`
/// bits, all initially clear.
#[verifier::external_body]
pub(crate) fn bits_new(bits: usize) -> (r: FixedBitSet)
    ensures
        bit_seq(r).len() == bits,
        forall|i: int| 0 <= i < bits ==> !bit_seq(r)[i],
{
    FixedBitSet::with_capacity(bits)
}

/// Relies on `FixedBitSet::set`: writes one bit, leaving the others and the
/// capacity unchanged. It panics on an out-of-bounds index, so that index is
/// required away.
#[verifier::external_body]
pub(crate) fn bits_set(b: &mut FixedBitSet, bit: usize, enabled: bool)
    requires
        bit < bit_seq(*old(b)).len(),
    ensures
        bit_seq(*final(b)) == bit_seq(*old(b)).update(bit as int, enabled),
{
    b.set(bit, enabled)
}

/// Relies on `FixedBitSet::contains`: reads one bit.
#[verifier::external_body]
pub(crate) fn bits_get(b: &FixedBitSet, bit: usize) -> (r: bool)
    requires
        bit < bit_seq(*b).len(),
    ensures
        r == bit_seq(*b)[bit as int],
{
    b.contains(bit)
}

/// Relies on `FixedBitSet::as_slice`: the packed `u32` blocks, one block per
/// 32 bits of capacity (rounded up); bit `i` of the set is bit `i % 32`,
/// least significant first, of block `i / 32`.
#[verifier::external_body]
pub(crate) fn bits_words(b: &FixedBitSet) -> (r: Vec<u32>)
    ensures
        r@.len() == (bit_seq(*b).len() + 31) / 32,
        forall|i: int|
            0 <= i < bit_seq(*b).len() ==> bit_seq(*b)[i] == ((r@[i / 32] >> ((i % 32) as u32))
                & 1 == 1),
{
    b.as_slice().to_vec()
}

} // verus!
