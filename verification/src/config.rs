//! Memory-layout and timer constants shared by the kernel modules.
use vstd::prelude::*;

verus! {

/// Size of a virtual-memory page.
pub const PAGE_SIZE: usize = 0x1000;

/// Size of each kernel stack (guard page not included).
pub const KERNEL_STACK_SIZE: usize = 0x2000;

/// Virtual address of the trampoline page, the highest page of the address space.
pub const TRAMPOLINE: usize = usize::MAX - PAGE_SIZE + 1;

/// Frequency of the `time` counter, in ticks per second.
pub const CLOCK_FREQ: usize = 12500000;

} // verus!
