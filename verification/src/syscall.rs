//! Pure composition of the model-specific-register images programmed while
//! bringing up the syscall mechanism. Writing the registers is privileged
//! hardware I/O and stays outside the library; the values written are
//! computed and specified here.

use vstd::prelude::*;

verus! {

/// Image for the syscall flag-mask register: bits 8 and 9, so that the trap
/// flag and the interrupt flag are cleared on kernel entry.
pub const SYSCALL_FLAG_MASK: u64 = 0x0300;

/// A segment selector: the GDT entry's index above the table-indicator and
/// privilege bits, with the requested privilege level in the low two bits.
pub fn gdt_selector(index: u64, rpl: u64) -> (r: u64)
    requires
        index < 0x2000,
        rpl < 4,
    ensures
        r == index * 8 + rpl,
{
    proof {
        assert(index < 0x2000 && rpl < 4 ==> ((index << 3) | rpl) == index * 8 + rpl)
            by (bit_vector);
    }
    (index << 3) | rpl
}

/// The STAR register image: the syscall selector base placed in bits 32..48
/// and the sysret selector base in bits 48..64 of the register.
pub fn star_image(syscall_base: u64, sysret_base: u64) -> (r: u64)
    requires
        syscall_base < 0x10000,
        sysret_base < 0x10000,
    ensures
        r == (syscall_base + sysret_base * 0x10000) * 0x1_0000_0000,
{
    proof {
        assert(syscall_base < 0x10000 && sysret_base < 0x10000 ==> ((syscall_base | (sysret_base
            << 16)) << 32) == (syscall_base + sysret_base * 0x10000) * 0x1_0000_0000)
            by (bit_vector);
    }
    let hi: u64 = syscall_base | (sysret_base << 16);
    hi << 32
}

/// The EFER image that turns the syscall extensions on: the lowest bit is
/// set and every other bit of the current value is kept.
pub fn efer_enable_syscalls(efer: u64) -> (r: u64)
    ensures
        r == efer | 1,
        r & 1 == 1,
        r >> 1 == efer >> 1,
{
    proof {
        assert((efer | 1) & 1 == 1 && (efer | 1) >> 1 == efer >> 1) by (bit_vector);
    }
    efer | 1
}

} // verus!
