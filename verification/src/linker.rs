//! The link-time layout of the kernel image.
//!
//! The fixed constants of the linker script are mirrored here; the values
//! that only linking determines (section bounds) arrive at boot as a
//! [`KernelLayout`] of plain addresses.

use vstd::prelude::*;

use crate::mm::paging::spec_align_up;
use crate::mm::paging::BASE_PAGE;
use crate::mm::paging::MEGABYTE;
use crate::mm::paging::MEGA_PAGE;

verus! {

/// The virtual offset of the kernel, mapped to physical address 0.
pub const VIRT_OFFSET: u64 = 0xffff_ffff_8000_0000;

/// The physical start address of the kernel image.
pub const KERNEL_PHYS_START: u64 = 0x100_0000;

/// The virtual address of the kernel start.
pub const KERNEL_START: u64 = KERNEL_PHYS_START + VIRT_OFFSET;

/// The size of the virtual memory block reserved for the kernel.  It does
/// *not* represent the *actual* size of the kernel image.
pub const KERNEL_SIZE: usize = 512 * MEGABYTE;

/// The maximum number of supported (logical) processors.
pub const MAX_CPUS: usize = 16;

/// The virtual offset of the per-processor data window.
pub const PERCPU_OFFSET: u64 = 0xffff_ff80_0000_0000;

/// The size of a kernel stack.
pub const STACK_SIZE: usize = 0x4000;

/// The size of the guard holes surrounding kernel stacks.
pub const STACK_GUARD_SIZE: usize = BASE_PAGE;

/// The size of the interrupt stacks.
pub const INTERRUPT_STACK_SIZE: usize = 0x4000;

/// The virtual address offset at which kernel devices are mapped.
pub const KDEV_OFFSET: u64 = 0xffff_ffff_c000_0000;

/// Virtual address where the local interrupt controller's registers are
/// mapped.
pub const LOCAL_APIC_ADDRESS: u64 = KDEV_OFFSET;

/// The maximum number of I/O interrupt controllers.
pub const MAX_IOAPICS: usize = 1;

/// Virtual offset of the I/O interrupt controllers' register pages.
pub const IO_APIC_OFFSET: u64 = LOCAL_APIC_ADDRESS + 0x1000;

/// The virtual offset at which all physical memory is mapped.
pub const PHYS_OFFSET: u64 = 0xffff_8000_0000_0000;

/// The maximum amount of supported physical memory, mapped with 1 GiB
/// pages; a multiple of 512 GiB.
pub const MAX_PHYS_MEMORY: u64 = 512 * 0x4000_0000;

/// The size of the virtual window holding per-processor blocks: for each of
/// the possible processors, a storage block (bounded by the kernel's
/// physical start address), a stack, and two guard holes.
pub const PERCPU_WINDOW_SIZE: usize = (0x100_0000 + STACK_SIZE + (STACK_GUARD_SIZE * 2))
    * MAX_CPUS;

/// Middle-level tables covering the per-processor window (one per GiB).
pub const NUM_PERCPU_PDS: usize = 1;

/// Lowest-level tables covering the per-processor window (one per 2 MiB).
pub const NUM_PERCPU_PTS: usize = 129;

/// Middle-high-level tables covering the physical-memory window (one per
/// 512 GiB).
pub const NUM_PHYS_PDPTS: usize = 1;

/// Lowest-level tables backing 4 KiB mappings in the kernel window (one
/// per 2 MiB of the 512 MiB window).
pub const NUM_KERN_PTS: usize = 256;

/// The virtual addresses the linker assigned to the kernel's sections,
/// read from the linker symbols at the boot edge.
#[derive(Debug, Clone, Copy, PartialEq, Eq, Structural)]
pub struct KernelLayout {
    /// Start of the text section.
    pub text_start: u64,
    /// End of the text section.
    pub text_end: u64,
    /// Start of the read-only data section.
    pub rodata_start: u64,
    /// End of the read-only data section.
    pub rodata_end: u64,
    /// Start of the data section.
    pub data_start: u64,
    /// End of the zero-initialised data section (which follows data).
    pub bss_end: u64,
    /// Start of the per-processor storage template.
    pub percpu_start: u64,
    /// End of the per-processor storage template.
    pub percpu_end: u64,
    /// Physical start of the 16-bit bootstrap code image.
    pub boot16_start: u64,
    /// Physical end of the 16-bit bootstrap code image.
    pub boot16_end: u64,
    /// The virtual end of the kernel image.
    pub image_end: u64,
}

/// One linked section range, as the kernel-window mapper needs it: page
/// aligned, inside the kernel window, and 2 MiB-aligned whenever it is big
/// enough for a huge page.
pub open spec fn section_wf(start: u64, end: u64) -> bool {
    &&& start % (BASE_PAGE as u64) == 0
    &&& VIRT_OFFSET <= start <= end
    &&& end <= VIRT_OFFSET + KERNEL_SIZE
    &&& (end - start >= MEGA_PAGE ==> start % (MEGA_PAGE as u64) == 0)
}

impl KernelLayout {
    /// The conditions the mapping passes assert of a sane linker script.
    pub open spec fn wf(self) -> bool {
        &&& section_wf(self.text_start, self.text_end)
        &&& section_wf(self.rodata_start, self.rodata_end)
        &&& section_wf(self.data_start, self.bss_end)
        &&& spec_align_up(self.text_end as int, BASE_PAGE as int) <= self.rodata_start
        &&& spec_align_up(self.rodata_end as int, BASE_PAGE as int) <= self.data_start
        &&& self.percpu_start <= self.percpu_end
        &&& self.percpu_end - self.percpu_start <= KERNEL_PHYS_START
        &&& self.boot16_start <= self.boot16_end
        &&& self.boot16_end - self.boot16_start <= BASE_PAGE
        &&& VIRT_OFFSET <= self.image_end <= VIRT_OFFSET + KERNEL_SIZE
    }
}

} // verus!
