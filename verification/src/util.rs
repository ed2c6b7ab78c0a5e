//! Bit-slice helpers shared by the decoder, the register files and the renderer.

use vstd::prelude::*;

verus! {

/// The bits `lo..=hi` of `value`, moved down to bit 0.
pub open spec fn spec_bits(value: u32, lo: u32, hi: u32) -> u32 {
    (value >> lo) & (0xFFFF_FFFFu32 >> ((31 - (hi - lo)) as u32))
}

/// Whether bit `n` of `value` is set.
pub open spec fn spec_bit(value: u32, n: u32) -> bool {
    (value >> n) & 1 == 1
}

/// Extracts the bit slice `lo..=hi` (both ends inclusive) of `value`.
pub fn bits(value: u32, lo: u32, hi: u32) -> (r: u32)
    requires
        lo <= hi < 32,
    ensures
        r == spec_bits(value, lo, hi),
{
    (value >> lo) & (0xFFFF_FFFFu32 >> (31 - (hi - lo)))
}

/// Tests the single bit `n` of `value`.
pub fn bit(value: u32, n: u32) -> (r: bool)
    requires
        n < 32,
    ensures
        r == spec_bit(value, n),
{
    (value >> n) & 1 == 1
}

} // verus!
