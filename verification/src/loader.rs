//! Addresses and selectors fixed by the boot loader.

use vstd::prelude::*;

verus! {

/// Virtual address the kernel image is mapped at.
pub const KERNEL_VADDR_BASE: u32 = 0xc0000000;

/// Physical address of the boot stack.
pub const KERNEL_STACK_PADDR: u32 = 0x7c00;

/// Physical address the kernel image is placed at.
pub const KERNEL_PLACE_BEGIN_PADDR: u32 = 0x20000;

/// Selector of the kernel code segment set up by the loader.
pub const SEGMENT_KERNEL_CODE: u16 = 0x8;

} // verus!
