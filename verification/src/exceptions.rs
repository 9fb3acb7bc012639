//! Exception vector metadata: the architecture-defined vector numbers,
//! their conventional mnemonics, and the handler interface. A handler
//! reports the vector it fired on; halting the machine on a fault is left
//! to the unverified interrupt glue around the library.

use vstd::prelude::*;

verus! {

/// Broad classes of processor exceptions.
#[derive(Clone, Copy, PartialEq, Eq, Structural, Debug)]
pub enum ExceptionType {
    Fault,
    Abort,
    Interrupt,
    Trap,
}

pub const DIVIDE_BY_ZERO: usize = 0x0;

pub const DEBUG: usize = 0x1;

pub const NON_MASKABLE: usize = 0x2;

pub const BREAKPOINT: usize = 0x3;

pub const OVERFLOW: usize = 0x4;

pub const BOUND_RANGE_EXCEEDED: usize = 0x5;

pub const INVALID_OPCODE: usize = 0x6;

pub const DEVICE_NOT_AVAILABLE: usize = 0x7;

pub const DOUBLE_FAULT: usize = 0x8;

pub const INVALID_TSS: usize = 0xA;

pub const SEGMENT_NOT_PRESENT: usize = 0xB;

pub const STACK_SEGMENT_FAULT: usize = 0xC;

pub const GENERAL_PROTECTION_FAULT: usize = 0xD;

pub const PAGE_FAULT: usize = 0xE;

pub const X87_FLOATING_POINT_EXCEPTION: usize = 0x10;

pub const ALIGNMENT_CHECK: usize = 0x11;

pub const MACHINE_CHECK: usize = 0x12;

pub const SIMD_FLOATING_POINT_EXCEPTION: usize = 0x13;

pub const VIRTUALIZATION_EXCEPTION: usize = 0x14;

pub const CONTROL_PROTECTION: usize = 0x15;

pub const HYPERVISOR_INJECTION: usize = 0x1C;

pub const VMM_COMMUNICATION_EXCEPTION: usize = 0x1D;

pub const SECURITY_EXCEPTION: usize = 0x1E;

/// The conventional mnemonic of each architecture-defined vector; vectors
/// outside the table read "Unknown".
pub open spec fn mnemonic(vector: usize) -> &'static str {
    if vector == DIVIDE_BY_ZERO {
        "#DE"
    } else if vector == DEBUG {
        "#DB"
    } else if vector == NON_MASKABLE {
        "-"
    } else if vector == BREAKPOINT {
        "#BP"
    } else if vector == OVERFLOW {
        "#OF"
    } else if vector == BOUND_RANGE_EXCEEDED {
        "#BR"
    } else if vector == INVALID_OPCODE {
        "#UD"
    } else if vector == DEVICE_NOT_AVAILABLE {
        "#NM"
    } else if vector == DOUBLE_FAULT {
        "#DF"
    } else if vector == INVALID_TSS {
        "#TS"
    } else if vector == SEGMENT_NOT_PRESENT {
        "#NP"
    } else if vector == STACK_SEGMENT_FAULT {
        "#SS"
    } else if vector == GENERAL_PROTECTION_FAULT {
        "#GP"
    } else if vector == PAGE_FAULT {
        "#PF"
    } else if vector == X87_FLOATING_POINT_EXCEPTION {
        "MF"
    } else if vector == ALIGNMENT_CHECK {
        "#AC"
    } else if vector == MACHINE_CHECK {
        "#MC"
    } else if vector == SIMD_FLOATING_POINT_EXCEPTION {
        "#XM"
    } else if vector == VIRTUALIZATION_EXCEPTION {
        "#VE"
    } else if vector == CONTROL_PROTECTION {
        "#CP"
    } else if vector == HYPERVISOR_INJECTION {
        "#HV"
    } else if vector == VMM_COMMUNICATION_EXCEPTION {
        "#VC"
    } else if vector == SECURITY_EXCEPTION {
        "#SX"
    } else {
        "Unknown"
    }
}

/// The conventional mnemonic of an exception vector, used when reporting a
/// fault.
pub fn error_code(vector: usize) -> (r: &'static str)
    ensures
        r == mnemonic(vector),
{
    if vector == DIVIDE_BY_ZERO {
        "#DE"
    } else if vector == DEBUG {
        "#DB"
    } else if vector == NON_MASKABLE {
        "-"
    } else if vector == BREAKPOINT {
        "#BP"
    } else if vector == OVERFLOW {
        "#OF"
    } else if vector == BOUND_RANGE_EXCEEDED {
        "#BR"
    } else if vector == INVALID_OPCODE {
        "#UD"
    } else if vector == DEVICE_NOT_AVAILABLE {
        "#NM"
    } else if vector == DOUBLE_FAULT {
        "#DF"
    } else if vector == INVALID_TSS {
        "#TS"
    } else if vector == SEGMENT_NOT_PRESENT {
        "#NP"
    } else if vector == STACK_SEGMENT_FAULT {
        "#SS"
    } else if vector == GENERAL_PROTECTION_FAULT {
        "#GP"
    } else if vector == PAGE_FAULT {
        "#PF"
    } else if vector == X87_FLOATING_POINT_EXCEPTION {
        "MF"
    } else if vector == ALIGNMENT_CHECK {
        "#AC"
    } else if vector == MACHINE_CHECK {
        "#MC"
    } else if vector == SIMD_FLOATING_POINT_EXCEPTION {
        "#XM"
    } else if vector == VIRTUALIZATION_EXCEPTION {
        "#VE"
    } else if vector == CONTROL_PROTECTION {
        "#CP"
    } else if vector == HYPERVISOR_INJECTION {
        "#HV"
    } else if vector == VMM_COMMUNICATION_EXCEPTION {
        "#VC"
    } else if vector == SECURITY_EXCEPTION {
        "#SX"
    } else {
        "Unknown"
    }
}

/// The stack frame the processor pushes when an interrupt or exception is
/// delivered.
#[derive(Clone, Copy, PartialEq, Eq, Structural, Debug)]
pub struct InterruptFrame {
    pub instruction_pointer: u64,
    pub code_segment: u64,
    pub cpu_flags: u64,
    pub stack_pointer: u64,
    pub stack_segment: u64,
}

/// Implemented by the handler of the exception with vector `T`; the handler
/// reports the vector it fired on.
pub trait Exception<const T: usize> {
    fn handle(frame: InterruptFrame) -> (r: usize)
        ensures
            r == T,
    ;
}

/// The registered handler for the exception with vector `T`.
pub struct ExceptionHandler<const T: usize>;

impl Exception<INVALID_TSS> for ExceptionHandler<INVALID_TSS> {
    fn handle(_frame: InterruptFrame) -> (r: usize) {
        INVALID_TSS
    }
}

} // verus!
