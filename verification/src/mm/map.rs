//! A helper to simplify building the kernel's static page tables.
//!
//! One builder type per translation level writes entries into a table of
//! that level.  Each builder remembers the link offset — the fixed
//! difference between a table's link-time virtual address and its physical
//! address — so it can write *physical* table addresses into parent entries
//! while the caller still works with virtual references, before the real
//! translation is active.

use vstd::prelude::*;

use crate::mm::paging::spec_entry_bits;
use crate::mm::paging::BASE_PAGE;
use crate::mm::paging::ENTRY_FLAGS_MASK;
use crate::mm::paging::GIGA_PAGE;
use crate::mm::paging::MEGA_PAGE;
use crate::mm::paging::PDE;
use crate::mm::paging::PDPTE;
use crate::mm::paging::PML4E;
use crate::mm::paging::PTE;
use crate::mm::paging::PTE_FLAGS_MASK;
use crate::mm::paging::PD;
use crate::mm::paging::PDPT;
use crate::mm::paging::PML4;
use crate::mm::paging::PT;

verus! {

/// How to resolve new flags against whatever flags already occupy a slot.
///
/// The same intermediate table slot is frequently touched by more than one
/// mapping pass, so callers must be able to avoid clobbering flags set by an
/// earlier pass.
#[derive(Debug, Clone, Copy, PartialEq, Eq, Structural)]
pub enum Flags {
    /// Preserve whatever flags were set.  This includes keeping the flags
    /// clear if none were set prior.
    Preserve,
    /// Initialise the flags to the given value if none were set.
    Init(u64),
    /// Set the flags to the given value.  Overrides any flags set prior.
    Assign(u64),
    /// Preserve existing flags but make sure the given flags are set.
    Enable(u64),
    /// Preserve existing flags, but disable the given flags.
    Disable(u64),
}

/// What a flag policy leaves in a slot that held `old_flags`.
pub open spec fn spec_apply_policy(old_flags: u64, policy: Flags) -> u64 {
    match policy {
        Flags::Preserve => old_flags,
        Flags::Init(f) => if old_flags == 0 {
            f
        } else {
            old_flags
        },
        Flags::Assign(f) => f,
        Flags::Enable(f) => old_flags | f,
        Flags::Disable(f) => old_flags & !f,
    }
}

/// The policy's payload stays within the defined flag bits `fm`.
pub open spec fn policy_flags_defined(policy: Flags, fm: u64) -> bool {
    match policy {
        Flags::Preserve => true,
        Flags::Init(f) => f & fm == f,
        Flags::Assign(f) => f & fm == f,
        Flags::Enable(f) => f & fm == f,
        Flags::Disable(f) => f & fm == f,
    }
}

/// Resolve a flag policy against the flags already in a slot.
fn apply_policy(old_flags: u64, policy: Flags) -> (r: u64)
    ensures
        r == spec_apply_policy(old_flags, policy),
{
    match policy {
        Flags::Preserve => old_flags,
        Flags::Init(f) => if old_flags == 0 {
            f
        } else {
            old_flags
        },
        Flags::Assign(f) => f,
        Flags::Enable(f) => old_flags | f,
        Flags::Disable(f) => old_flags & !f,
    }
}

/// Address bits and flag bits of an entry word never collide: flags drawn
/// from a flag mask survive joining with any address, and joins and clears
/// of masked flags stay within the mask.
proof fn lemma_mask_facts(p: u64, o: u64, f: u64, fm: u64)
    by (bit_vector)
    requires
        fm & 0x000f_ffff_ffff_f000 == 0,
        o & fm == o,
        f & fm == f,
    ensures
        ((p & 0x000f_ffff_ffff_f000) | o) & fm == o,
        (o | f) & fm == (o | f),
        (o & !f) & fm == (o & !f),
{
}

/// The flag masks of every translation level avoid the address bits.
proof fn lemma_flag_masks()
    by (bit_vector)
    ensures
        0x8000_0000_0000_0fffu64 & 0x000f_ffff_ffff_f000 == 0,
        0x87f0_0000_0000_0fffu64 & 0x000f_ffff_ffff_f000 == 0,
{
}

/// Law (flags round-trip): writing an entry under a flag policy and reading
/// the flags back reproduces exactly the policy's contract — `Enable(f)`
/// yields `old | f`; `Disable(f)` yields `old & !f`; `Assign(f)` yields `f`;
/// `Preserve` yields `old` unchanged; `Init(f)` yields `f` only when `old`
/// was empty, else `old`.  `fm` is the level's flag mask.
pub proof fn lemma_flags_roundtrip(addr: u64, old_flags: u64, policy: Flags, fm: u64)
    requires
        fm == ENTRY_FLAGS_MASK || fm == PTE_FLAGS_MASK,
        old_flags & fm == old_flags,
        policy_flags_defined(policy, fm),
    ensures
        spec_entry_bits(addr, spec_apply_policy(old_flags, policy)) & fm == spec_apply_policy(
            old_flags,
            policy,
        ),
        spec_apply_policy(old_flags, Flags::Preserve) == old_flags,
        forall|f: u64| #[trigger]
            spec_apply_policy(old_flags, Flags::Enable(f)) == (old_flags | f),
        forall|f: u64| #[trigger]
            spec_apply_policy(old_flags, Flags::Disable(f)) == (old_flags & !f),
        forall|f: u64| #[trigger] spec_apply_policy(old_flags, Flags::Assign(f)) == f,
        forall|f: u64| #[trigger]
            spec_apply_policy(old_flags, Flags::Init(f)) == if old_flags == 0 {
                f
            } else {
                old_flags
            },
{
    lemma_flag_masks();
    match policy {
        Flags::Preserve => {
            lemma_mask_facts(addr, old_flags, old_flags, fm);
        },
        Flags::Init(f) => {
            lemma_mask_facts(addr, old_flags, f, fm);
            lemma_mask_facts(addr, f, f, fm);
        },
        Flags::Assign(f) => {
            lemma_mask_facts(addr, f, f, fm);
        },
        Flags::Enable(f) => {
            lemma_mask_facts(addr, old_flags, f, fm);
            lemma_mask_facts(addr, (old_flags | f) & fm, old_flags | f, fm);
        },
        Flags::Disable(f) => {
            lemma_mask_facts(addr, old_flags, f, fm);
            lemma_mask_facts(addr, (old_flags & !f) & fm, old_flags & !f, fm);
        },
    }
}

/// The top-level builder.  It writes entries of the top (PML4) table.
#[derive(Debug, Clone, Copy)]
pub struct Mapper {
    /// The offset at which the kernel is linked, used to turn a table's
    /// virtual address into the physical address its parent entry needs.
    pub link_offset: u64,
}

impl Mapper {
    /// The link offset must itself be page-aligned, as the linker places
    /// the kernel image on a page boundary.
    pub open spec fn wf(self) -> bool {
        self.link_offset % (BASE_PAGE as u64) == 0
    }

    pub fn new(link_offset: u64) -> (r: Self)
        requires
            link_offset % (BASE_PAGE as u64) == 0,
        ensures
            r.link_offset == link_offset,
            r.wf(),
    {
        Mapper { link_offset }
    }

    /// Map a 512 GiB range: point the top-level slot at a middle-high-level
    /// table (given by its link-time virtual address) and return a builder
    /// scoped to that table.
    pub fn pdpt(&self, top: &mut PML4, pml4_idx: usize, pdpt_vaddr: u64, flags: Flags) -> (r:
        PdptMapper)
        requires
            self.wf(),
            old(top).wf(),
            pml4_idx < 512,
            pdpt_vaddr % (BASE_PAGE as u64) == 0,
            pdpt_vaddr >= self.link_offset,
        ensures
            final(top).wf(),
            final(top).table@ == old(top).table@.update(
                pml4_idx as int,
                PML4E {
                    bits: spec_entry_bits(
                        (pdpt_vaddr - self.link_offset) as u64,
                        spec_apply_policy(old(top).table@[pml4_idx as int].bits & ENTRY_FLAGS_MASK, flags),
                    ),
                },
            ),
            r.link_offset == self.link_offset,
            r.wf(),
    {
        let old_flags = top.table[pml4_idx].flags();
        let entry = PML4E::new(pdpt_vaddr - self.link_offset, apply_policy(old_flags, flags));
        top.table.set(pml4_idx, entry);
        PdptMapper { link_offset: self.link_offset }
    }
}

/// A builder that maps a 512 GiB range using 1 GiB huge pages, or descends
/// into a middle-level table for finer mappings.
#[derive(Debug, Clone, Copy)]
pub struct PdptMapper {
    /// See [`Mapper::link_offset`].
    pub link_offset: u64,
}

impl PdptMapper {
    /// See [`Mapper::wf`].
    pub open spec fn wf(self) -> bool {
        self.link_offset % (BASE_PAGE as u64) == 0
    }

    /// Map a 1 GiB huge page at the given slot.
    ///
    /// It is up to the caller to provide the appropriate flags (present,
    /// huge page, and so on).
    pub fn map(&self, pdpt: &mut PDPT, pdpt_idx: usize, frame: u64, flags: Flags)
        requires
            old(pdpt).wf(),
            pdpt_idx < 512,
            frame % (GIGA_PAGE as u64) == 0,
        ensures
            final(pdpt).wf(),
            final(pdpt).table@ == old(pdpt).table@.update(
                pdpt_idx as int,
                PDPTE {
                    bits: spec_entry_bits(
                        frame,
                        spec_apply_policy(old(pdpt).table@[pdpt_idx as int].bits & ENTRY_FLAGS_MASK, flags),
                    ),
                },
            ),
    {
        let old_flags = pdpt.table[pdpt_idx].flags();
        let entry = PDPTE::new(frame, apply_policy(old_flags, flags));
        pdpt.table.set(pdpt_idx, entry);
    }

    /// Map a 1 GiB range: point the slot at a middle-level table (given by
    /// its link-time virtual address) and return a builder scoped to it.
    pub fn pd(&self, pdpt: &mut PDPT, pdpt_idx: usize, pd_vaddr: u64, flags: Flags) -> (r:
        PdMapper)
        requires
            self.wf(),
            old(pdpt).wf(),
            pdpt_idx < 512,
            pd_vaddr % (BASE_PAGE as u64) == 0,
            pd_vaddr >= self.link_offset,
        ensures
            final(pdpt).wf(),
            final(pdpt).table@ == old(pdpt).table@.update(
                pdpt_idx as int,
                PDPTE {
                    bits: spec_entry_bits(
                        (pd_vaddr - self.link_offset) as u64,
                        spec_apply_policy(old(pdpt).table@[pdpt_idx as int].bits & ENTRY_FLAGS_MASK, flags),
                    ),
                },
            ),
            r.link_offset == self.link_offset,
            r.wf(),
    {
        let old_flags = pdpt.table[pdpt_idx].flags();
        let entry = PDPTE::new(pd_vaddr - self.link_offset, apply_policy(old_flags, flags));
        pdpt.table.set(pdpt_idx, entry);
        PdMapper { link_offset: self.link_offset }
    }
}

/// A builder that maps a 1 GiB range using 2 MiB huge pages, or descends
/// into a lowest-level table for 4 KiB mappings.
#[derive(Debug, Clone, Copy)]
pub struct PdMapper {
    /// See [`Mapper::link_offset`].
    pub link_offset: u64,
}

impl PdMapper {
    /// See [`Mapper::wf`].
    pub open spec fn wf(self) -> bool {
        self.link_offset % (BASE_PAGE as u64) == 0
    }

    /// Map a 2 MiB huge page at the given slot.
    ///
    /// It is up to the caller to provide the appropriate flags (present,
    /// huge page, and so on).
    pub fn map(&self, pd: &mut PD, pd_idx: usize, frame: u64, flags: Flags)
        requires
            old(pd).wf(),
            pd_idx < 512,
            frame % (MEGA_PAGE as u64) == 0,
        ensures
            final(pd).wf(),
            final(pd).table@ == old(pd).table@.update(
                pd_idx as int,
                PDE {
                    bits: spec_entry_bits(
                        frame,
                        spec_apply_policy(old(pd).table@[pd_idx as int].bits & ENTRY_FLAGS_MASK, flags),
                    ),
                },
            ),
    {
        let old_flags = pd.table[pd_idx].flags();
        let entry = PDE::new(frame, apply_policy(old_flags, flags));
        pd.table.set(pd_idx, entry);
    }

    /// Map a 2 MiB range: point the slot at a lowest-level table (given by
    /// its link-time virtual address) and return a builder scoped to it.
    pub fn pt(&self, pd: &mut PD, pd_idx: usize, pt_vaddr: u64, flags: Flags) -> (r: PtMapper)
        requires
            self.wf(),
            old(pd).wf(),
            pd_idx < 512,
            pt_vaddr % (BASE_PAGE as u64) == 0,
            pt_vaddr >= self.link_offset,
        ensures
            final(pd).wf(),
            final(pd).table@ == old(pd).table@.update(
                pd_idx as int,
                PDE {
                    bits: spec_entry_bits(
                        (pt_vaddr - self.link_offset) as u64,
                        spec_apply_policy(old(pd).table@[pd_idx as int].bits & ENTRY_FLAGS_MASK, flags),
                    ),
                },
            ),
            r.link_offset == self.link_offset,
            r.wf(),
    {
        let old_flags = pd.table[pd_idx].flags();
        let entry = PDE::new(pt_vaddr - self.link_offset, apply_policy(old_flags, flags));
        pd.table.set(pd_idx, entry);
        PtMapper { link_offset: self.link_offset }
    }
}

/// A builder that maps a 2 MiB range using 4 KiB pages.
#[derive(Debug, Clone, Copy)]
pub struct PtMapper {
    /// See [`Mapper::link_offset`].
    pub link_offset: u64,
}

impl PtMapper {
    /// See [`Mapper::wf`].
    pub open spec fn wf(self) -> bool {
        self.link_offset % (BASE_PAGE as u64) == 0
    }

    /// Map a 4 KiB page at the given slot.
    ///
    /// It is up to the caller to provide the appropriate flags (present and
    /// so on).
    pub fn map(&self, pt: &mut PT, pt_idx: usize, frame: u64, flags: Flags)
        requires
            old(pt).wf(),
            pt_idx < 512,
            frame % (BASE_PAGE as u64) == 0,
        ensures
            final(pt).wf(),
            final(pt).table@ == old(pt).table@.update(
                pt_idx as int,
                PTE {
                    bits: spec_entry_bits(
                        frame,
                        spec_apply_policy(old(pt).table@[pt_idx as int].bits & PTE_FLAGS_MASK, flags),
                    ),
                },
            ),
    {
        let old_flags = pt.table[pt_idx].flags();
        let entry = PTE::new(frame, apply_policy(old_flags, flags));
        pt.table.set(pt_idx, entry);
    }
}

} // verus!
