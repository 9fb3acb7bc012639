//! The arithmetic of ACPI table enumeration. Walking the tables themselves
//! means reinterpreting raw physical memory and stays outside the library;
//! the entry count that the walk is driven by is computed and specified
//! here.

use vstd::prelude::*;

verus! {

/// Size in bytes of the fixed header that every system description table
/// starts with.
pub const SDT_HEADER_SIZE: u32 = 36;

/// Number of 8-byte table pointers that follow the fixed header of the
/// extended system description table; its `length` field counts the whole
/// table, header included.
pub fn xsdt_entry_count(length: u32) -> (r: u32)
    requires
        length >= SDT_HEADER_SIZE,
    ensures
        r == (length - SDT_HEADER_SIZE) / 8,
{
    (length - SDT_HEADER_SIZE) / 8
}

} // verus!
