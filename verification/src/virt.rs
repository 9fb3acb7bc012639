//! Canonical virtual addresses.
//!
//! On x86-64 only the low 48 bits of a linear address carry information; the
//! upper 17 bits (47..64) must all replicate bit 47, the sign bit. Values of
//! [`VirtualAddress`] always satisfy this, so paging code may hand them to
//! the hardware without re-checking.

use crate::bits::bits_from;
use crate::math;
use crate::math::{align_down_spec, align_up_spec, is_power_of_two};
use vstd::prelude::*;

verus! {

/// Lowest bit of the field that must replicate the sign bit.
pub const VA_HIGH_SHIFT: u64 = 47;

/// The upper field (bits 47..64) with every bit set; `lemma_field_masks`
/// proves that this literal spans the field's full width.
pub const VA_HIGH_ONES: u64 = 0x1ffff;

/// Mask of the bits below the sign bit.
pub const VA_LOW_MASK: u64 = 0x7fff_ffff_ffff;

/// Mask of the sign bit and everything above it.
pub const VA_EXTENSION: u64 = 0xffff_8000_0000_0000;

/// The mask literals match the width of the upper field: the all-one
/// pattern is exactly the field's width of set bits, the low mask covers
/// everything below the sign bit, and the extension mask is its complement.
pub proof fn lemma_field_masks()
    by (bit_vector)
    ensures
        VA_HIGH_ONES == (1u64 << ((64 - VA_HIGH_SHIFT) as u64)) - 1,
        VA_LOW_MASK == (1u64 << VA_HIGH_SHIFT) - 1,
        VA_EXTENSION == !VA_LOW_MASK,
{
}

/// Bits 47..64 of a raw value, shifted down to bit 0.
pub open spec fn va_high_bits(v: u64) -> u64 {
    v >> VA_HIGH_SHIFT
}

/// A linear address is canonical when its upper field is all clear or all
/// set, i.e. when the value is sign-extended from bit 47.
pub open spec fn va_is_canonical(v: u64) -> bool {
    va_high_bits(v) == 0 || va_high_bits(v) == VA_HIGH_ONES
}

/// The canonical value obtained by replicating bit 47 over the upper field.
pub open spec fn va_sign_extend(v: u64) -> u64 {
    if va_high_bits(v) & 1 == 1 {
        (v & VA_LOW_MASK) | VA_EXTENSION
    } else {
        v & VA_LOW_MASK
    }
}

proof fn lemma_va_bits(v: u64)
    by (bit_vector)
    ensures
        va_is_canonical(va_sign_extend(v)),
        va_is_canonical(v) ==> va_sign_extend(v) == v,
        va_high_bits(v) == 1 ==> va_high_bits(va_sign_extend(v)) == VA_HIGH_ONES,
        va_high_bits(0) == 0,
{
}

/// Truncation is idempotent: sign-extending an already sign-extended value
/// changes nothing.
pub proof fn lemma_truncate_idempotent(v: u64)
    ensures
        va_sign_extend(va_sign_extend(v)) == va_sign_extend(v),
{
    lemma_va_bits(v);
    lemma_va_bits(va_sign_extend(v));
}

/// Round trip: a canonical value has an upper field that is all clear or all
/// set, so validation accepts it and keeps it unchanged.
pub proof fn lemma_canonical_round_trip(v: u64)
    requires
        va_is_canonical(v),
    ensures
        va_sign_extend(v) == v,
        va_high_bits(v) == 0 || va_high_bits(v) == VA_HIGH_ONES,
{
    lemma_va_bits(v);
}

/// An offset that carries an address's upper bit field into a pattern that
/// is neither clear, nor full, nor the lone sign bit leaves the sum
/// non-canonical, so validation reports the field instead of storing a
/// wrapped value.
pub proof fn lemma_offset_out_of_range_rejected(v: u64, offset: u64)
    requires
        va_is_canonical(v),
        v + offset <= u64::MAX,
        va_high_bits((v + offset) as u64) != 0,
        va_high_bits((v + offset) as u64) != VA_HIGH_ONES,
        va_high_bits((v + offset) as u64) != 1,
    ensures
        !va_is_canonical((v + offset) as u64),
{
}

/// Every value in the low half of the address space, below bit 47, has a
/// clear upper field and is canonical; callers use this to discharge the
/// constructors' preconditions for ordinary low addresses.
pub proof fn lemma_low_half_canonical(v: u64)
    requires
        v < 0x8000_0000_0000,
    ensures
        va_high_bits(v) == 0,
        va_is_canonical(v),
{
    assert(v < 0x8000_0000_0000 ==> v >> VA_HIGH_SHIFT == 0) by (bit_vector);
}

/// A 64-bit linear address that is always canonical.
#[derive(Clone, Copy, PartialEq, Eq, Structural, PartialOrd, Ord, Hash, Debug)]
pub struct VirtualAddress(u64);

impl View for VirtualAddress {
    type V = u64;

    closed spec fn view(&self) -> u64 {
        self.0
    }
}

impl VirtualAddress {
    #[verifier::type_invariant]
    spec fn inv(self) -> bool {
        va_is_canonical(self.0)
    }

    /// Validating constructor for values whose legality the caller has
    /// already established; an upper field that is neither clear, nor full,
    /// nor the lone sign bit is a programming error, not a runtime
    /// condition, and is excluded by precondition.
    pub fn new(addr: u64) -> (r: VirtualAddress)
        requires
            va_high_bits(addr) == 0 || va_high_bits(addr) == VA_HIGH_ONES || va_high_bits(addr)
                == 1,
        ensures
            r@ == va_sign_extend(addr),
            va_is_canonical(addr) ==> r@ == addr,
    {
        Self::try_new(addr).unwrap()
    }

    /// Validates a raw value: accepts it unchanged when the upper field is
    /// all clear or all set, repairs it by sign extension when only bit 47
    /// is set, and otherwise reports the offending field.
    pub fn try_new(addr: u64) -> (r: Result<VirtualAddress, u64>)
        ensures
            r is Ok <==> (va_high_bits(addr) == 0 || va_high_bits(addr) == VA_HIGH_ONES
                || va_high_bits(addr) == 1),
            r matches Ok(a) ==> a@ == va_sign_extend(addr),
            va_is_canonical(addr) ==> (r matches Ok(a) && a@ == addr),
            va_high_bits(addr) == 1 ==> (r matches Ok(a) && va_high_bits(a@) == VA_HIGH_ONES),
            r matches Err(bad) ==> bad == va_high_bits(addr) && !va_is_canonical(addr),
    {
        proof {
            lemma_va_bits(addr);
        }
        let field: u64 = bits_from(addr, VA_HIGH_SHIFT);
        if field == 0 || field == VA_HIGH_ONES {
            Ok(VirtualAddress(addr))
        } else if field == 1 {
            Ok(Self::truncate(addr))
        } else {
            Err(field)
        }
    }

    /// Constructor for architecture-fixed constants; the caller guarantees
    /// canonicality, stated here as a precondition instead of being left
    /// unchecked.
    pub fn const_new_unchecked(addr: u64) -> (r: VirtualAddress)
        requires
            va_is_canonical(addr),
        ensures
            r@ == addr,
    {
        VirtualAddress(addr)
    }

    /// Forces canonical form by replicating bit 47 over the upper field,
    /// regardless of what the field held.
    pub fn truncate(addr: u64) -> (r: VirtualAddress)
        ensures
            r@ == va_sign_extend(addr),
    {
        proof {
            lemma_va_bits(addr);
        }
        if (addr >> VA_HIGH_SHIFT) & 1 == 1 {
            VirtualAddress((addr & VA_LOW_MASK) | VA_EXTENSION)
        } else {
            VirtualAddress(addr & VA_LOW_MASK)
        }
    }

    /// The null address, trivially canonical.
    pub fn zero() -> (r: VirtualAddress)
        ensures
            r@ == 0,
    {
        proof {
            lemma_va_bits(0);
        }
        VirtualAddress(0)
    }

    /// The raw 64-bit value; always canonical.
    pub fn as_u64(&self) -> (r: u64)
        ensures
            r == self@,
            va_is_canonical(r),
    {
        proof {
            use_type_invariant(&*self);
        }
        self.0
    }

    /// True exactly for the null address.
    pub fn is_null(&self) -> (r: bool)
        ensures
            r == (self@ == 0),
    {
        self.0 == 0
    }

    /// Validates and overwrites; an illegal upper field is a programming
    /// error, excluded by precondition as in `new`.
    pub fn set(&mut self, addr: u64)
        requires
            va_high_bits(addr) == 0 || va_high_bits(addr) == VA_HIGH_ONES || va_high_bits(addr)
                == 1,
        ensures
            final(self)@ == va_sign_extend(addr),
            va_is_canonical(addr) ==> final(self)@ == addr,
    {
        *self = Self::new(addr);
    }

    /// Validates and overwrites in place; on an illegal upper field the
    /// address is left unchanged and both the field and the value truncation
    /// would have produced are reported.
    pub fn try_set(&mut self, addr: u64) -> (r: Result<(), (u64, u64)>)
        ensures
            r is Ok <==> (va_high_bits(addr) == 0 || va_high_bits(addr) == VA_HIGH_ONES
                || va_high_bits(addr) == 1),
            r is Ok ==> final(self)@ == va_sign_extend(addr),
            va_is_canonical(addr) ==> final(self)@ == addr,
            r matches Err((bad, repaired)) ==> *final(self) == *old(self) && bad == va_high_bits(
                addr,
            ) && repaired == va_sign_extend(addr),
    {
        proof {
            lemma_va_bits(addr);
        }
        let field: u64 = bits_from(addr, VA_HIGH_SHIFT);
        if field == 0 || field == VA_HIGH_ONES {
            self.0 = addr;
            Ok(())
        } else if field == 1 {
            *self = Self::truncate(addr);
            Ok(())
        } else {
            let repaired: u64 = Self::truncate(addr).as_u64();
            Err((field, repaired))
        }
    }

    /// A new address rounded up to the power-of-two boundary `align`; the
    /// rounded value must stay canonical, as every value of this type is.
    pub fn align_up_and_get(&self, align: u64) -> (r: VirtualAddress)
        requires
            is_power_of_two(align),
            align_up_spec(self@, align) <= u64::MAX,
            va_is_canonical(align_up_spec(self@, align) as u64),
        ensures
            r@ == align_up_spec(self@, align),
    {
        VirtualAddress(math::align_up(self.0, align))
    }

    /// Rounds the address up in place, through the same validation as `set`.
    pub fn align_up_and_set(&mut self, align: u64)
        requires
            is_power_of_two(align),
            align_up_spec(old(self)@, align) <= u64::MAX,
            va_high_bits(align_up_spec(old(self)@, align) as u64) == 0 || va_high_bits(
                align_up_spec(old(self)@, align) as u64,
            ) == VA_HIGH_ONES || va_high_bits(align_up_spec(old(self)@, align) as u64) == 1,
        ensures
            final(self)@ == va_sign_extend(align_up_spec(old(self)@, align) as u64),
    {
        let rounded: u64 = math::align_up(self.0, align);
        self.set(rounded);
    }

    /// A new address rounded down to the power-of-two boundary `align`; the
    /// rounded value must stay canonical, as every value of this type is.
    pub fn align_down_and_get(&self, align: u64) -> (r: VirtualAddress)
        requires
            is_power_of_two(align),
            va_is_canonical(align_down_spec(self@, align) as u64),
        ensures
            r@ == align_down_spec(self@, align),
    {
        VirtualAddress(math::align_down(self.0, align))
    }

    /// Rounds the address down in place, through the same validation as
    /// `set`.
    pub fn align_down_and_set(&mut self, align: u64)
        requires
            is_power_of_two(align),
            va_high_bits(align_down_spec(old(self)@, align) as u64) == 0 || va_high_bits(
                align_down_spec(old(self)@, align) as u64,
            ) == VA_HIGH_ONES || va_high_bits(align_down_spec(old(self)@, align) as u64) == 1,
        ensures
            final(self)@ == va_sign_extend(align_down_spec(old(self)@, align) as u64),
    {
        let rounded: u64 = math::align_down(self.0, align);
        self.set(rounded);
    }

    /// True exactly when the address is a multiple of `align`.
    pub fn is_aligned(&mut self, align: u64) -> (r: bool)
        requires
            is_power_of_two(align),
        ensures
            r == (old(self)@ % align == 0),
            *final(self) == *old(self),
    {
        let down: u64 = math::align_down(self.0, align);
        down == self.0
    }

    /// Adds a byte offset; the sum must pass the same validation as `new`,
    /// and 64-bit overflow is excluded, so the address can neither wrap nor
    /// silently leave canonical form.
    pub fn add(self, rhs: u64) -> (r: VirtualAddress)
        requires
            self@ + rhs <= u64::MAX,
            va_high_bits((self@ + rhs) as u64) == 0 || va_high_bits((self@ + rhs) as u64)
                == VA_HIGH_ONES || va_high_bits((self@ + rhs) as u64) == 1,
        ensures
            r@ == va_sign_extend((self@ + rhs) as u64),
    {
        Self::new(self.0 + rhs)
    }

    /// Adds a byte offset in place, under the same conditions as `add`.
    pub fn add_assign(&mut self, rhs: u64)
        requires
            old(self)@ + rhs <= u64::MAX,
            va_high_bits((old(self)@ + rhs) as u64) == 0 || va_high_bits(
                (old(self)@ + rhs) as u64,
            ) == VA_HIGH_ONES || va_high_bits((old(self)@ + rhs) as u64) == 1,
        ensures
            final(self)@ == va_sign_extend((old(self)@ + rhs) as u64),
    {
        *self = (*self).add(rhs);
    }

    /// Subtracts a byte offset; 64-bit underflow and a non-repairable
    /// difference are programming errors, excluded by precondition.
    pub fn sub(self, rhs: u64) -> (r: VirtualAddress)
        requires
            rhs <= self@,
            va_high_bits((self@ - rhs) as u64) == 0 || va_high_bits((self@ - rhs) as u64)
                == VA_HIGH_ONES || va_high_bits((self@ - rhs) as u64) == 1,
        ensures
            r@ == va_sign_extend((self@ - rhs) as u64),
    {
        Self::new(self.0 - rhs)
    }

    /// Subtracts a byte offset in place, under the same conditions as `sub`.
    pub fn sub_assign(&mut self, rhs: u64)
        requires
            rhs <= old(self)@,
            va_high_bits((old(self)@ - rhs) as u64) == 0 || va_high_bits(
                (old(self)@ - rhs) as u64,
            ) == VA_HIGH_ONES || va_high_bits((old(self)@ - rhs) as u64) == 1,
        ensures
            final(self)@ == va_sign_extend((old(self)@ - rhs) as u64),
    {
        *self = (*self).sub(rhs);
    }

    /// The byte distance between two addresses; a negative distance is a
    /// programming error, so the subtrahend must not exceed the minuend.
    pub fn sub_addr(self, rhs: VirtualAddress) -> (r: u64)
        requires
            rhs@ <= self@,
        ensures
            r == self@ - rhs@,
    {
        self.0 - rhs.0
    }
}

} // verus!
