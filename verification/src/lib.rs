//! Address model for an x86-64 kernel: canonical virtual addresses,
//! range-limited physical addresses, the alignment arithmetic both share,
//! and the small pure computations of the early bring-up path.

pub mod acpi;
mod bits;
pub mod exceptions;
pub mod math;
pub mod phys;
pub mod syscall;
pub mod virt;

pub use exceptions::Exception;
pub use exceptions::ExceptionHandler;
pub use exceptions::ExceptionType;
pub use math::align_down;
pub use math::align_up;
pub use phys::PhysicalAddress;
pub use virt::VirtualAddress;
