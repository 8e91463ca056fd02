//! The bit vector that backs the tag controller.

use vstd::prelude::*;
use bitvec::boxed::BitBox;
use bitvec::order::Lsb0;
use bitvec::vec::BitVec;

verus! {

/// A boxed bit slice of fixed length, least significant bit first.
#[verifier::external_body]
pub struct TagBits {
    bits: BitBox<u8, Lsb0>,
}

/// The bits that the vector holds, first to last.
pub uninterp spec fn tag_bits(t: TagBits) -> Seq<bool>;

impl View for TagBits {
    type V = Seq<bool>;

    open spec fn view(&self) -> Seq<bool> {
        tag_bits(*self)
    }
}

impl TagBits {
    /// `BitVec::repeat` with `false`, boxed by `BitVec::into_boxed_bitslice`:
    /// `len` bits, all clear. The length stays below the greatest that a
    /// bit vector can encode on any target.
    #[verifier::external_body]
    pub(crate) fn zeroed(len: usize) -> (t: TagBits)
        requires
            len <= 0x1FFF_FFFF,
        ensures
            tag_bits(t) == Seq::new(len as nat, |i: int| false),
    {
        TagBits { bits: BitVec::<u8, Lsb0>::repeat(false, len).into_boxed_bitslice() }
    }

    /// `BitSlice::len`: the number of bits held.
    #[verifier::external_body]
    pub(crate) fn len(&self) -> (n: usize)
        ensures
            n == tag_bits(*self).len(),
    {
        self.bits.len()
    }

    /// Indexing a `BitSlice` by position: the bit at `idx`.
    #[verifier::external_body]
    pub(crate) fn get(&self, idx: usize) -> (bit: bool)
        requires
            idx < tag_bits(*self).len(),
        ensures
            bit == tag_bits(*self)[idx as int],
    {
        self.bits[idx]
    }

    /// `BitSlice::set`: the bit at `idx` becomes `value`, the others stay.
    #[verifier::external_body]
    pub(crate) fn set(&mut self, idx: usize, value: bool)
        requires
            idx < tag_bits(*old(self)).len(),
        ensures
            tag_bits(*final(self)) == tag_bits(*old(self)).update(idx as int, value),
    {
        self.bits.set(idx, value);
    }

    /// `BitSlice::fill` on the sub-slice `start..end`: every bit in that
    /// range becomes `value`, the others stay.
    #[verifier::external_body]
    pub(crate) fn fill(&mut self, start: usize, end: usize, value: bool)
        requires
            start <= end <= tag_bits(*old(self)).len(),
        ensures
            tag_bits(*final(self)) == Seq::new(
                tag_bits(*old(self)).len(),
                |i: int|
                    if start <= i < end {
                        value
                    } else {
                        tag_bits(*old(self))[i]
                    },
            ),
    {
        self.bits[start..end].fill(value);
    }
}

} // verus!
