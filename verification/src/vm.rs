//! Per-core address spaces.
//!
//! Every logical core owns an address space whose top-level table points,
//! in its kernel half, at the shared kernel map; the rest of the space is
//! private to the core.

use vstd::prelude::*;

use crate::linker;
use crate::mm::paging::pml4_index;
use crate::mm::paging::spec_entry_bits;
use crate::mm::paging::spec_pml4_index;
use crate::mm::paging::ENTRY_P;
use crate::mm::paging::PD;
use crate::mm::paging::PDPT;
use crate::mm::paging::PML4;
use crate::mm::paging::PML4E;

verus! {

/// Convert a virtual kernel-window address to its physical address: the
/// window is mapped `link offset` below itself.
pub fn virt_to_phys(virt: u64) -> (r: u64)
    requires
        linker::VIRT_OFFSET <= virt,
        virt <= linker::VIRT_OFFSET + linker::KERNEL_SIZE,
    ensures
        r == virt - linker::VIRT_OFFSET,
{
    virt - linker::VIRT_OFFSET
}

/// The global kernel map: the tables shared by every per-core address
/// space, covering the kernel window of the top 512 GiB.
pub struct KernelMap {
    /// The shared middle-high-level table; every address space points its
    /// top-level kernel slot here.
    pub lvl_3: PDPT,
    /// The middle-level table of the kernel text and data window.
    pub kern_lvl_2: PD,
    /// The number of address spaces handed out so far.
    pub num_aspaces: u16,
}

impl KernelMap {
    pub open spec fn wf(self) -> bool {
        self.lvl_3.wf() && self.kern_lvl_2.wf()
    }

    /// Create an empty kernel map.
    pub fn empty() -> (r: Self)
        ensures
            r.wf(),
            r.num_aspaces == 0,
            forall|i: int| 0 <= i < 512 ==> r.lvl_3.table@[i].bits == 0,
            forall|i: int| 0 <= i < 512 ==> r.kern_lvl_2.table@[i].bits == 0,
    {
        KernelMap { lvl_3: PDPT::zero(), kern_lvl_2: PD::zero(), num_aspaces: 0 }
    }

    /// The shared middle-high-level table, for linking address spaces in.
    pub fn kernel_lvl_3(&self) -> (r: &PDPT)
        ensures
            r == &self.lvl_3,
    {
        &self.lvl_3
    }
}

/// One core's address space: a private top-level table whose kernel slot
/// points at the shared kernel map, plus the core's identity.
pub struct AddressSpace {
    /// The top of the address space for the owning core.
    pub top: PML4,
    /// The interrupt-controller identity of the core this space belongs to.
    pub apic_id: u32,
}

impl AddressSpace {
    pub open spec fn wf(self) -> bool {
        self.top.wf()
    }

    /// Link this space into the shared kernel map: point the kernel half's
    /// top-level slot at the map's middle-high-level table (given by its
    /// physical address) and record the owning core.
    pub fn init(&mut self, kernel_lvl_3_phys: u64, apic_id: u16)
        requires
            old(self).wf(),
        ensures
            final(self).wf(),
            final(self).top.table@ == old(self).top.table@.update(
                spec_pml4_index(linker::KERNEL_START) as int,
                PML4E { bits: spec_entry_bits(kernel_lvl_3_phys, ENTRY_P) },
            ),
            final(self).apic_id == apic_id as u32,
    {
        let idx = pml4_index(linker::KERNEL_START);
        let entry = PML4E::new(kernel_lvl_3_phys, ENTRY_P);
        self.top.table.set(idx, entry);
        self.apic_id = apic_id as u32;
    }

    /// The identity of the core this address space belongs to.
    pub fn apic_id(&self) -> (r: u32)
        ensures
            r == self.apic_id,
    {
        self.apic_id
    }
}

} // verus!
