//! Boot-time memory subsystem of a bare-metal x86-64 kernel.
//!
//! The crate discovers usable physical memory from firmware-provided
//! descriptors, builds the four-level hardware address-translation tables,
//! carves out per-core virtual regions, and sequences the startup of
//! secondary processors.  All table words, descriptors and register values
//! are computed by verified code; the thin layer that touches hardware
//! (model-specific registers, memory-mapped I/O, the linker script) lives
//! outside this crate and hands plain values in.

use vstd::prelude::*;

pub mod apic;
pub mod boot;
pub mod desc;
pub mod gdt;
pub mod idt;
pub mod interrupts;
pub mod linker;
pub mod ioapic;
pub mod mm;
pub mod smp;
pub mod vm;

verus! {

/// The maximum number of memory region descriptors accepted from the
/// platform.  The allocator's backing heap is sized from this value.
pub const MAX_MEM_REGIONS: usize = 32;

} // verus!
