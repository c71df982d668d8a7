//! 128-bit square sets, one bit per square index, and fixed groups of four
//! of them for batch operations.

use vstd::prelude::*;

verus! {

/// Whether bit `i` of `x` is set.
pub open spec fn bit_set(x: u128, i: u32) -> bool {
    (x >> i) & 1u128 == 1u128
}

/// Number of set bits of `x` below bit `n`.
pub open spec fn popcount_below(x: u128, n: nat) -> nat
    decreases n,
{
    if n == 0 {
        0
    } else {
        popcount_below(x, (n - 1) as nat) + if bit_set(x, (n - 1) as u32) { 1nat } else { 0nat }
    }
}

/// Number of set bits of `x`.
pub open spec fn popcount(x: u128) -> nat {
    popcount_below(x, 128)
}

/// A set of squares as a 128-bit mask.
#[derive(Clone, Copy, Debug, PartialEq, Eq, Structural)]
pub struct SimdBitboard {
    pub bits: u128,
}

impl SimdBitboard {
    pub fn empty() -> (r: Self)
        ensures
            r.bits == 0,
    {
        SimdBitboard { bits: 0 }
    }

    pub fn from_u128(bits: u128) -> (r: Self)
        ensures
            r.bits == bits,
    {
        SimdBitboard { bits }
    }

    pub fn to_u128(&self) -> (r: u128)
        ensures
            r == self.bits,
    {
        self.bits
    }

    /// Intersection of two sets.
    pub fn and(&self, other: &SimdBitboard) -> (r: SimdBitboard)
        ensures
            r.bits == self.bits & other.bits,
    {
        SimdBitboard { bits: self.bits & other.bits }
    }

    /// Number of squares in the set.
    pub fn count_ones(&self) -> (r: u32)
        ensures
            r == popcount(self.bits),
    {
        let x = self.bits;
        let mut count: u32 = 0;
        let mut i: u32 = 0;
        while i < 128
            invariant
                i <= 128,
                count == popcount_below(x, i as nat),
                count <= i,
            decreases 128 - i,
        {
            if (x >> i) & 1u128 == 1u128 {
                count += 1;
            }
            i += 1;
        }
        count
    }
}

/// Four square sets processed together.
#[derive(Clone, Copy, Debug)]
pub struct AlignedBitboardArray {
    pub boards: [SimdBitboard; 4],
}

impl AlignedBitboardArray {
    /// The first four sets of a slice holding at least four.
    pub fn from_slice(boards: &[SimdBitboard]) -> (r: Self)
        requires
            boards@.len() >= 4,
        ensures
            forall|i: int| 0 <= i < 4 ==> #[trigger] r.boards@[i] == boards@[i],
    {
        AlignedBitboardArray { boards: [boards[0], boards[1], boards[2], boards[3]] }
    }

    /// The set at `index`.
    pub fn get(&self, index: usize) -> (r: &SimdBitboard)
        requires
            index < 4,
        ensures
            *r == self.boards@[index as int],
    {
        &self.boards[index]
    }

    /// Element-wise intersection with another group.
    pub fn batch_and(&self, other: &AlignedBitboardArray) -> (r: AlignedBitboardArray)
        ensures
            forall|i: int| 0 <= i < 4 ==> (#[trigger] r.boards@[i]).bits == self.boards@[i].bits & other.boards@[i].bits,
    {
        AlignedBitboardArray {
            boards: [
                self.boards[0].and(&other.boards[0]),
                self.boards[1].and(&other.boards[1]),
                self.boards[2].and(&other.boards[2]),
                self.boards[3].and(&other.boards[3]),
            ],
        }
    }
}

} // verus!
