//! Range-limited physical addresses.
//!
//! The platform supports at most a 52-bit physical address space, the x86-64
//! architectural maximum: bits 52..64 of a physical address must be zero.
//! Values of [`PhysicalAddress`] always satisfy this; unlike linear
//! addresses there is no sign semantics, so truncation is a plain reduction
//! modulo 2^52 and always repairs a raw value completely.

use crate::bits::bits_from;
use crate::math;
use crate::math::{align_down_spec, align_up_spec, is_power_of_two};
use vstd::prelude::*;

verus! {

/// Lowest bit of the field that must be zero.
pub const PA_HIGH_SHIFT: u64 = 52;

/// One past the largest representable physical address: 2^52, written out
/// as a literal; `lemma_pa_limit_width` proves it matches the field width.
pub const PA_LIMIT: u64 = 0x10_0000_0000_0000;

/// The limit literal matches the width of the zero field: it is exactly one
/// shifted up to the field's lowest bit.
pub proof fn lemma_pa_limit_width()
    by (bit_vector)
    ensures
        PA_LIMIT == 1u64 << PA_HIGH_SHIFT,
{
}

/// Bits 52..64 of a raw value, shifted down to bit 0.
pub open spec fn pa_high_bits(v: u64) -> u64 {
    v >> PA_HIGH_SHIFT
}

/// A physical address is valid when bits 52..64 are all zero.
pub open spec fn pa_in_range(v: u64) -> bool {
    pa_high_bits(v) == 0
}

/// The raw value reduced modulo 2^52: bits 52..64 cleared.
pub open spec fn pa_truncate(v: u64) -> u64 {
    v % PA_LIMIT
}

proof fn lemma_pa_bits(v: u64)
    by (bit_vector)
    ensures
        pa_in_range(pa_truncate(v)),
        pa_in_range(v) ==> pa_truncate(v) == v,
        pa_high_bits(0) == 0,
{
}

/// Truncation is idempotent: reducing modulo 2^52 twice is the same as
/// reducing once.
pub proof fn lemma_pa_truncate_idempotent(v: u64)
    ensures
        pa_truncate(pa_truncate(v)) == pa_truncate(v),
{
    lemma_pa_bits(v);
    lemma_pa_bits(pa_truncate(v));
}

/// Round trip: an in-range value is accepted unchanged by validation.
pub proof fn lemma_pa_round_trip(v: u64)
    requires
        pa_in_range(v),
    ensures
        pa_truncate(v) == v,
{
    lemma_pa_bits(v);
}

/// Every value below the limit has a clear upper field; callers use this
/// to discharge the aligned getters' range preconditions.
pub proof fn lemma_below_limit_in_range(v: u64)
    requires
        v < PA_LIMIT,
    ensures
        pa_in_range(v),
{
    assert(v < PA_LIMIT ==> v >> PA_HIGH_SHIFT == 0) by (bit_vector);
}

/// A 64-bit physical address, always below 2^52.
#[derive(Clone, Copy, PartialEq, Eq, Structural, PartialOrd, Ord, Hash, Debug)]
pub struct PhysicalAddress(u64);

impl View for PhysicalAddress {
    type V = u64;

    closed spec fn view(&self) -> u64 {
        self.0
    }
}

impl PhysicalAddress {
    #[verifier::type_invariant]
    spec fn inv(self) -> bool {
        pa_in_range(self.0)
    }

    /// Builds an address from a raw value, clearing bits 52..64 when they
    /// are occupied. Truncation always clears the whole field, so the
    /// defensive re-check of the result can never fail.
    pub fn new(addr: u64) -> (r: PhysicalAddress)
        ensures
            r@ == pa_truncate(addr),
            pa_in_range(addr) ==> r@ == addr,
    {
        proof {
            lemma_pa_bits(addr);
        }
        let high: u64 = bits_from(addr, PA_HIGH_SHIFT);
        if high != 0 {
            Self::truncate(addr)
        } else {
            PhysicalAddress(addr)
        }
    }

    /// Validates a raw value; a value with occupied high bits is repaired by
    /// truncation, which always clears the whole field, so the error branch
    /// that reports the field and the truncated candidate is unreachable.
    pub fn try_new(addr: u64) -> (r: Result<PhysicalAddress, (u64, u64)>)
        ensures
            r is Ok,
            r matches Ok(a) ==> a@ == pa_truncate(addr),
            pa_in_range(addr) ==> (r matches Ok(a) && a@ == addr),
    {
        proof {
            lemma_pa_bits(addr);
        }
        let repaired: PhysicalAddress = Self::truncate(addr);
        let high: u64 = bits_from(repaired.as_u64(), PA_HIGH_SHIFT);
        if high != 0 {
            Err((bits_from(addr, PA_HIGH_SHIFT), repaired.as_u64()))
        } else {
            Ok(repaired)
        }
    }

    /// The raw value reduced modulo 2^52; no sign extension, physical
    /// addresses have no canonical sign semantics.
    pub fn truncate(addr: u64) -> (r: PhysicalAddress)
        ensures
            r@ == pa_truncate(addr),
    {
        proof {
            lemma_pa_bits(addr);
        }
        PhysicalAddress(addr % PA_LIMIT)
    }

    /// The null address, trivially in range.
    pub fn zero() -> (r: PhysicalAddress)
        ensures
            r@ == 0,
    {
        proof {
            lemma_pa_bits(0);
        }
        PhysicalAddress(0)
    }

    /// The raw 64-bit value; always below 2^52.
    pub fn as_u64(&self) -> (r: u64)
        ensures
            r == self@,
            pa_in_range(r),
    {
        proof {
            use_type_invariant(&*self);
        }
        self.0
    }

    /// True exactly for the null address.
    pub fn is_null(&self) -> (r: bool)
        ensures
            r == (self@ == 0),
    {
        self.0 == 0
    }

    /// Overwrites with a raw value through the same repair as `new`; the
    /// irrecoverable branch of `try_set` is unreachable, so this never
    /// aborts.
    pub fn set(&mut self, addr: u64)
        ensures
            final(self)@ == pa_truncate(addr),
            pa_in_range(addr) ==> final(self)@ == addr,
    {
        let _ = self.try_set(addr);
    }

    /// Overwrites in place, repairing occupied high bits by truncation; the
    /// error branch reporting the raw value and a twice-truncated candidate
    /// is kept for defense in depth but can never be taken.
    pub fn try_set(&mut self, addr: u64) -> (r: Result<(), (u64, u64)>)
        ensures
            r is Ok,
            final(self)@ == pa_truncate(addr),
            pa_in_range(addr) ==> final(self)@ == addr,
    {
        proof {
            lemma_pa_bits(addr);
        }
        let high: u64 = bits_from(addr, PA_HIGH_SHIFT);
        if high != 0 {
            let repaired: PhysicalAddress = Self::truncate(addr);
            let still_high: u64 = bits_from(repaired.as_u64(), PA_HIGH_SHIFT);
            if still_high != 0 {
                Err((addr, Self::truncate(repaired.as_u64()).as_u64()))
            } else {
                *self = repaired;
                Ok(())
            }
        } else {
            self.0 = addr;
            Ok(())
        }
    }

    /// A new address rounded up to the power-of-two boundary `align`; the
    /// rounded value must stay in range, as every value of this type is.
    pub fn align_up_and_get(&self, align: u64) -> (r: PhysicalAddress)
        requires
            is_power_of_two(align),
            align_up_spec(self@, align) <= u64::MAX,
            pa_in_range(align_up_spec(self@, align) as u64),
        ensures
            r@ == align_up_spec(self@, align),
    {
        PhysicalAddress(math::align_up(self.0, align))
    }

    /// A new address rounded down to the power-of-two boundary `align`.
    pub fn align_down_and_get(self, align: u64) -> (r: PhysicalAddress)
        requires
            is_power_of_two(align),
        ensures
            r@ == align_down_spec(self@, align),
    {
        proof {
            use_type_invariant(&self);
            lemma_pa_down_in_range(self.0, align);
        }
        PhysicalAddress(math::align_down(self.0, align))
    }

    /// Rounds the address up in place, through the same repair as `set`.
    pub fn align_up_and_set(&mut self, align: u64)
        requires
            is_power_of_two(align),
            align_up_spec(old(self)@, align) <= u64::MAX,
        ensures
            final(self)@ == pa_truncate(align_up_spec(old(self)@, align) as u64),
    {
        let rounded: u64 = math::align_up(self.0, align);
        self.set(rounded);
    }

    /// Rounds the address down in place, through the same repair as `set`.
    pub fn align_down_and_set(&mut self, align: u64)
        requires
            is_power_of_two(align),
        ensures
            final(self)@ == pa_truncate(align_down_spec(old(self)@, align) as u64),
    {
        let rounded: u64 = math::align_down(self.0, align);
        self.set(rounded);
    }

    /// True exactly when the address is a multiple of `align`.
    pub fn is_aligned(self, align: u64) -> (r: bool)
        requires
            is_power_of_two(align),
        ensures
            r == (self@ % align == 0),
    {
        let down: u64 = math::align_down(self.0, align);
        down == self.0
    }

    /// Adds a byte offset through the same constructor path as `new`:
    /// 64-bit overflow is excluded, and a sum that leaves the 52-bit range
    /// is truncated back into it.
    pub fn add(self, rhs: u64) -> (r: PhysicalAddress)
        requires
            self@ + rhs <= u64::MAX,
        ensures
            r@ == pa_truncate((self@ + rhs) as u64),
            pa_in_range((self@ + rhs) as u64) ==> r@ == self@ + rhs,
    {
        Self::new(self.0 + rhs)
    }

    /// Adds a byte offset in place, under the same conditions as `add`.
    pub fn add_assign(&mut self, rhs: u64)
        requires
            old(self)@ + rhs <= u64::MAX,
        ensures
            final(self)@ == pa_truncate((old(self)@ + rhs) as u64),
            pa_in_range((old(self)@ + rhs) as u64) ==> final(self)@ == old(self)@ + rhs,
    {
        *self = (*self).add(rhs);
    }

    /// Subtracts a byte offset; 64-bit underflow is a programming error,
    /// excluded by precondition. The difference stays in range.
    pub fn sub(self, rhs: u64) -> (r: PhysicalAddress)
        requires
            rhs <= self@,
        ensures
            r@ == self@ - rhs,
    {
        proof {
            use_type_invariant(&self);
            lemma_pa_sub_in_range(self.0, rhs);
        }
        Self::new(self.0 - rhs)
    }

    /// Subtracts a byte offset in place, under the same conditions as `sub`.
    pub fn sub_assign(&mut self, rhs: u64)
        requires
            rhs <= old(self)@,
        ensures
            final(self)@ == old(self)@ - rhs,
    {
        *self = (*self).sub(rhs);
    }

    /// The byte distance between two addresses; a negative distance is a
    /// programming error, so the subtrahend must not exceed the minuend.
    pub fn sub_addr(self, rhs: PhysicalAddress) -> (r: u64)
        requires
            rhs@ <= self@,
        ensures
            r == self@ - rhs@,
    {
        self.0 - rhs.0
    }
}

proof fn lemma_pa_down_in_range(v: u64, align: u64)
    requires
        is_power_of_two(align),
        pa_in_range(v),
    ensures
        pa_in_range(align_down_spec(v, align) as u64),
{
    math::lemma_align_bounds(v, align);
    let d = align_down_spec(v, align) as u64;
    assert(v >> PA_HIGH_SHIFT == 0 && d <= v ==> d >> PA_HIGH_SHIFT == 0) by (bit_vector);
}

proof fn lemma_pa_sub_in_range(v: u64, rhs: u64)
    requires
        rhs <= v,
        pa_in_range(v),
    ensures
        pa_in_range((v - rhs) as u64),
{
    let d = (v - rhs) as u64;
    assert(v >> PA_HIGH_SHIFT == 0 && d <= v ==> d >> PA_HIGH_SHIFT == 0) by (bit_vector);
}

} // verus!
