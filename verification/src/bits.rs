//! Extraction of the high bit field of a raw address value.

use vstd::prelude::*;

verus! {

/// Relies on bit_field's `BitField::get_bits` for `u64`: for a range that
/// runs from bit `lo` up to bit 64, the extracted field is the whole value
/// shifted right by `lo` (the implementation shifts the high bits away, which
/// for an end of 64 is a no-op, then shifts out the low bits). `get_bits`
/// asserts that the range starts below the bit length, hence the bound on
/// `lo`.
#[verifier::external_body]
pub(crate) fn bits_from(v: u64, lo: u64) -> (r: u64)
    requires
        lo < 64,
    ensures
        r == v >> lo,
{
    bit_field::BitField::get_bits(&v, (lo as usize)..64)
}

} // verus!
