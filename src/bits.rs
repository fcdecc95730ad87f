//! Reading single bits and bit ranges out of frame words.
use vstd::arithmetic::power2::pow2;
use vstd::prelude::*;

use bit_field::BitField;

verus! {

/// Whether bit `i` (counted from the least significant bit) of `v` is set.
pub open spec fn bit_set(v: int, i: nat) -> bool {
    (v / pow2(i) as int) % 2 == 1
}

/// The bits `lo..=hi` of `v`, moved down so that bit `lo` becomes bit 0.
pub open spec fn bit_range(v: int, lo: nat, hi: nat) -> int {
    (v % pow2(hi + 1) as int) / pow2(lo) as int
}

/// Relies on `BitField::get_bit` of bit_field for `u16`: it asserts `bit < 16`
/// and returns whether `self & (1 << bit)` is non-zero.
#[verifier::external_body]
pub(crate) fn get_bit(v: u16, bit: usize) -> (r: bool)
    requires
        bit < 16,
    ensures
        r == bit_set(v as int, bit as nat),
{
    v.get_bit(bit)
}

/// Relies on `BitField::get_bits` of bit_field for `u16` with the range `lo..=hi`:
/// it asserts that the range lies within the 16 bits, clears the bits above
/// `hi` and shifts the rest down by `lo`.
#[verifier::external_body]
pub(crate) fn get_bits(v: u16, lo: usize, hi: usize) -> (r: u16)
    requires
        lo <= hi < 16,
    ensures
        r as int == bit_range(v as int, lo as nat, hi as nat),
{
    v.get_bits(lo..=hi)
}

} // verus!
