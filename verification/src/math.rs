//! Shared alignment arithmetic: rounding a value up or down to a
//! power-of-two boundary. Both address types use these helpers for their
//! aligned getters and setters.

use vstd::arithmetic::div_mod::{
    lemma_fundamental_div_mod, lemma_mod_bound, lemma_mod_multiples_basic,
};
use vstd::arithmetic::mul::{lemma_mul_is_commutative, lemma_mul_is_distributive_add};
use vstd::prelude::*;

verus! {

/// True exactly when `a` is a power of two (1, 2, 4, ...).
pub open spec fn is_power_of_two(a: u64) -> bool
    decreases a,
{
    if a == 0 {
        false
    } else if a == 1 {
        true
    } else {
        a % 2 == 0 && is_power_of_two(a / 2)
    }
}

/// The greatest multiple of `align` that does not exceed `value`.
pub open spec fn align_down_spec(value: u64, align: u64) -> int
    recommends
        align > 0,
{
    value - value as int % align as int
}

/// The least multiple of `align` that is not below `value`.
pub open spec fn align_up_spec(value: u64, align: u64) -> int
    recommends
        align > 0,
{
    if value as int % align as int == 0 {
        value as int
    } else {
        align_down_spec(value, align) + align
    }
}

proof fn lemma_align_down_facts(value: u64, align: u64)
    requires
        align > 0,
    ensures
        0 <= align_down_spec(value, align) <= value,
        value < align_down_spec(value, align) + align,
        align_down_spec(value, align) % (align as int) == 0,
{
    lemma_mod_bound(value as int, align as int);
    lemma_fundamental_div_mod(value as int, align as int);
    lemma_mul_is_commutative(align as int, value as int / align as int);
    lemma_mod_multiples_basic(value as int / align as int, align as int);
}

proof fn lemma_align_up_facts(value: u64, align: u64)
    requires
        align > 0,
    ensures
        value <= align_up_spec(value, align) < value + align,
        align_up_spec(value, align) % (align as int) == 0,
{
    lemma_align_down_facts(value, align);
    if value as int % align as int != 0 {
        let q = value as int / align as int;
        lemma_fundamental_div_mod(value as int, align as int);
        lemma_mul_is_distributive_add(align as int, q, 1);
        lemma_mod_multiples_basic(q + 1, align as int);
    }
}

/// Rounding down to a power-of-two boundary never goes below the next lower
/// multiple, and rounding up never overshoots by a full step: the two results
/// differ by nothing when `value` is already a multiple of `align`, and by
/// exactly `align` otherwise.
pub proof fn lemma_align_bounds(value: u64, align: u64)
    requires
        is_power_of_two(align),
    ensures
        0 <= align_down_spec(value, align) <= value < align_down_spec(value, align) + align,
        value <= align_up_spec(value, align),
        align_up_spec(value, align) - align_down_spec(value, align) == if value as int
            % align as int == 0 {
            0int
        } else {
            align as int
        },
{
    lemma_align_down_facts(value, align);
    lemma_align_up_facts(value, align);
}

/// Every power of two below 2^64 satisfies the power-of-two predicate;
/// callers use this to discharge the alignment precondition for a boundary
/// written as a shifted one.
pub proof fn lemma_shifted_one_is_power_of_two(k: u64)
    requires
        k < 64,
    ensures
        is_power_of_two(1u64 << k),
    decreases k,
{
    if k == 0 {
        assert(1u64 << 0u64 == 1) by (bit_vector);
    } else {
        lemma_shifted_one_is_power_of_two((k - 1) as u64);
        assert(1 <= k < 64 ==> (1u64 << k) % 2 == 0 && (1u64 << k) / 2 == (1u64 << ((k - 1) as u64))
            && (1u64 << k) != 0 && (1u64 << k) != 1) by (bit_vector);
    }
}

/// Rounds `value` down to the previous multiple of `align`.
///
/// `align` must be a power of two; other alignments are outside the
/// contract of the address types built on top of this helper.
pub fn align_down(value: u64, align: u64) -> (r: u64)
    requires
        is_power_of_two(align),
    ensures
        r == align_down_spec(value, align),
        r % align == 0,
        r <= value,
        value < r + align,
{
    proof {
        lemma_align_down_facts(value, align);
    }
    value - value % align
}

/// Rounds `value` up to the next multiple of `align`.
///
/// `align` must be a power of two, and the rounded result must still fit in
/// 64 bits.
pub fn align_up(value: u64, align: u64) -> (r: u64)
    requires
        is_power_of_two(align),
        align_up_spec(value, align) <= u64::MAX,
    ensures
        r == align_up_spec(value, align),
        r % align == 0,
        value <= r,
        r < value + align,
{
    proof {
        lemma_align_down_facts(value, align);
        lemma_align_up_facts(value, align);
    }
    let rem: u64 = value % align;
    if rem == 0 {
        value
    } else {
        assert(value - rem + align == align_up_spec(value, align));
        value - rem + align
    }
}

} // verus!
