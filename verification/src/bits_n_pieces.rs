//! Splitting a 32-bit word into its two 16-bit halves, and joining them again.

use vstd::prelude::*;

verus! {

/// The upper sixteen bits of `i`, as a number.
pub open spec fn spec_u32_high_bits(i: u32) -> u16 {
    (i / 0x1_0000) as u16
}

/// The lower sixteen bits of `i`, as a number.
pub open spec fn spec_u32_low_bits(i: u32) -> u16 {
    (i % 0x1_0000) as u16
}

/// The word whose upper half is `high` and whose lower half is `low`.
pub open spec fn spec_u32_merge_bits(high: u16, low: u16) -> u32 {
    (high * 0x1_0000 + low) as u32
}

/// Returns the upper sixteen bits of `i`.
pub fn u32_high_bits(i: u32) -> (high: u16)
    ensures
        high == spec_u32_high_bits(i),
{
    assert(i >> 16 == i / 0x1_0000) by (bit_vector);
    (i >> 16) as u16
}

/// Returns the lower sixteen bits of `i`.
pub fn u32_low_bits(i: u32) -> (low: u16)
    ensures
        low == spec_u32_low_bits(i),
{
    assert(i & 0xffff == i % 0x1_0000) by (bit_vector);
    (i & 0xffff) as u16
}

/// Splits `i` into its upper and lower halves.
pub fn u32_split_bits(i: u32) -> (halves: (u16, u16))
    ensures
        halves.0 == spec_u32_high_bits(i),
        halves.1 == spec_u32_low_bits(i),
{
    (u32_high_bits(i), u32_low_bits(i))
}

/// Joins `high` and `low` into the word that has them as its halves.
pub fn u32_merge_bits(high: u16, low: u16) -> (i: u32)
    ensures
        i == spec_u32_merge_bits(high, low),
{
    let h: u32 = high as u32;
    let l: u32 = low as u32;
    assert((h << 16) | l == h * 0x1_0000 + l) by (bit_vector)
        requires
            h < 0x1_0000,
            l < 0x1_0000,
    ;
    (h << 16) | l
}

/// Splitting a joined word gives back the two halves it was joined from.
pub proof fn lemma_split_of_merge(high: u16, low: u16)
    ensures
        spec_u32_high_bits(spec_u32_merge_bits(high, low)) == high,
        spec_u32_low_bits(spec_u32_merge_bits(high, low)) == low,
{
}

/// Joining the two halves of a word gives back the word.
pub proof fn lemma_merge_of_split(i: u32)
    ensures
        spec_u32_merge_bits(spec_u32_high_bits(i), spec_u32_low_bits(i)) == i,
{
}

} // verus!
