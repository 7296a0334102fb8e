//! Kernel memory management.
//!
//! Discovery of usable physical memory feeds the region allocator
//! ([`memory::Memory`]); the table builders ([`map`]) write the four-level
//! translation structures; and [`KernelTables`] sequences the four mapping
//! passes — the kernel window, the physical-memory window, the device
//! window, and per-processor regions — over one owned set of tables.

pub mod desc;
pub mod map;
pub mod memory;
pub mod paging;

use vstd::prelude::*;

use crate::linker;
use crate::mm::desc::Region;
use crate::mm::map::spec_apply_policy;
use crate::mm::map::Flags;
use crate::mm::map::Mapper;
use crate::mm::map::PdMapper;
use crate::mm::map::PdptMapper;
use crate::mm::memory::Memory;
use crate::mm::paging::pd_index;
use crate::mm::paging::pdpt_index;
use crate::mm::paging::pml4_index;
use crate::mm::paging::pt_index;
use crate::mm::paging::spec_entry_bits;
use crate::mm::paging::spec_pd_index;
use crate::mm::paging::spec_pdpt_index;
use crate::mm::paging::spec_pml4_index;
use crate::mm::paging::spec_pt_index;
use crate::mm::paging::ADDRESS_MASK;
use crate::mm::paging::BASE_PAGE;
use crate::mm::paging::ENTRY_FLAGS_MASK;
use crate::mm::paging::ENTRY_P;
use crate::mm::paging::ENTRY_PCD;
use crate::mm::paging::ENTRY_PS;
use crate::mm::paging::ENTRY_PWT;
use crate::mm::paging::ENTRY_RW;
use crate::mm::paging::ENTRY_XD;
use crate::mm::paging::GIGA_PAGE;
use crate::mm::paging::MEGA_PAGE;
use crate::mm::paging::PD;
use crate::mm::paging::PDE;
use crate::mm::paging::PDPT;
use crate::mm::paging::PDPTE;
use crate::mm::paging::PML4;
use crate::mm::paging::PML4E;
use crate::mm::paging::PT;
use crate::mm::paging::PTE;
use crate::mm::paging::PTE_FLAGS_MASK;

verus! {

/// The link-time virtual addresses of the statically allocated tables; all
/// page-aligned and inside the kernel window, so that subtracting the link
/// offset yields their physical addresses.
#[derive(Debug, Clone, Copy, PartialEq, Eq, Structural)]
pub struct TableAddrs {
    pub top: u64,
    pub kernel_pdpt: u64,
    pub kern_pd: u64,
    /// Base of the array of kernel-window lowest-level tables; table `i`
    /// sits `i` pages further.
    pub kern_pts: u64,
    pub kdev_pd: u64,
    pub kdev_pt: u64,
    pub percpu_pds: u64,
    pub percpu_pts: u64,
    pub phys_pdpts: u64,
}

impl TableAddrs {
    pub open spec fn addr_ok(a: u64) -> bool {
        a % (BASE_PAGE as u64) == 0 && linker::VIRT_OFFSET <= a && a + linker::KERNEL_SIZE
            <= u64::MAX
    }

    pub open spec fn wf(self) -> bool {
        &&& Self::addr_ok(self.top)
        &&& Self::addr_ok(self.kernel_pdpt)
        &&& Self::addr_ok(self.kern_pd)
        &&& Self::addr_ok(self.kern_pts)
        &&& Self::addr_ok(self.kdev_pd)
        &&& Self::addr_ok(self.kdev_pt)
        &&& Self::addr_ok(self.percpu_pds)
        &&& Self::addr_ok(self.percpu_pts)
        &&& Self::addr_ok(self.phys_pdpts)
    }
}

/// The 2 MiB slot of `v` within the 1 GiB-aligned window at `base`.
pub open spec fn window_pd_index(v: u64, base: u64) -> int {
    (v - base) / (MEGA_PAGE as int)
}

/// The 4 KiB slot of `v` within its 2 MiB range.
pub open spec fn window_pt_index(v: u64) -> int {
    (v as int % (MEGA_PAGE as int)) / (BASE_PAGE as int)
}

/// The bit-extracted table indexes of an address in a 1 GiB-aligned window
/// coincide with plain offset arithmetic.
proof fn lemma_window_index_bits(v: u64, base: u64)
    by (bit_vector)
    requires
        base % 0x4000_0000u64 == 0,
        base <= v,
        ((v - base) as u64) < 0x4000_0000,
    ensures
        (v >> 21) & 0x1ff == ((v - base) as u64) / 0x20_0000,
        (v >> 12) & 0x1ff == (v % 0x20_0000) / 0x1000,
        (v % 0x20_0000) == ((v - base) as u64) % 0x20_0000,
        (v % 0x20_0000) % 0x1000 == v % 0x1000,
        (v % 0x20_0000) / 0x1000 < 512,
        ((v - base) as u64) / 0x20_0000 < 512,
{
}

/// Table indexes of an address inside a 1 GiB-aligned window are plain
/// offset arithmetic, and a page address is recovered from its indexes.
proof fn lemma_window_index_bridge(v: u64, base: u64)
    requires
        base % 0x4000_0000 == 0,
        base <= v,
        v - base < 0x4000_0000,
    ensures
        spec_pd_index(v) == window_pd_index(v, base),
        spec_pt_index(v) == window_pt_index(v),
        0 <= window_pd_index(v, base) < 512,
        0 <= window_pt_index(v) < 512,
        v == base + window_pd_index(v, base) * MEGA_PAGE + window_pt_index(v) * BASE_PAGE + (
        v as int % (BASE_PAGE as int)),
        v as int % (MEGA_PAGE as int) == 0 ==> window_pt_index(v) == 0 && v as int % (
        BASE_PAGE as int) == 0 && v == base + window_pd_index(v, base) * MEGA_PAGE,
{
    lemma_window_index_bits(v, base);
    let d = v - base;
    vstd::arithmetic::div_mod::lemma_fundamental_div_mod(d, MEGA_PAGE as int);
    vstd::arithmetic::div_mod::lemma_mod_bound(d, MEGA_PAGE as int);
    vstd::arithmetic::div_mod::lemma_fundamental_div_mod(
        v as int % (MEGA_PAGE as int),
        BASE_PAGE as int,
    );
    vstd::arithmetic::div_mod::lemma_mod_bound(v as int, MEGA_PAGE as int);
    vstd::arithmetic::div_mod::lemma_mod_bound(v as int % (MEGA_PAGE as int), BASE_PAGE as int);
}

/// Enabling the same masked flags twice leaves an entry's flag word
/// unchanged.
proof fn lemma_or_masked_stable(x: u64, c: u64, fm: u64)
    by (bit_vector)
    requires
        c & fm == c,
    ensures
        (x & fm) & fm == x & fm,
        ((x & fm) | c) & fm == (x & fm) | c,
        (((x & fm) | c) & fm) | c == (x & fm) | c,
{
}

/// The middle-level flags of one kernel-window huge page: present, huge,
/// and writable or execute-disabled as the section demands.
pub open spec fn spec_section_pd_flags(rw: bool, xd: bool) -> u64 {
    ENTRY_P | ENTRY_PS | (if rw {
        ENTRY_RW
    } else {
        0
    }) | (if xd {
        ENTRY_XD
    } else {
        0
    })
}

/// The lowest-level flags of one kernel-window page.
pub open spec fn spec_section_pt_flags(rw: bool, xd: bool) -> u64 {
    ENTRY_P | (if rw {
        ENTRY_RW
    } else {
        0
    }) | (if xd {
        ENTRY_XD
    } else {
        0
    })
}

fn section_pd_flags(rw: bool, xd: bool) -> (r: u64)
    ensures
        r == spec_section_pd_flags(rw, xd),
{
    ENTRY_P | ENTRY_PS | (if rw {
        ENTRY_RW
    } else {
        0
    }) | (if xd {
        ENTRY_XD
    } else {
        0
    })
}

fn section_pt_flags(rw: bool, xd: bool) -> (r: u64)
    ensures
        r == spec_section_pt_flags(rw, xd),
{
    ENTRY_P | (if rw {
        ENTRY_RW
    } else {
        0
    }) | (if xd {
        ENTRY_XD
    } else {
        0
    })
}

/// The section flags stay within the defined flag bits of their level.
proof fn lemma_section_flags_defined(rw: bool, xd: bool)
    by (bit_vector)
    requires
        true,
    ensures
        (0x1u64 | 0x80u64 | (if rw {
            0x2u64
        } else {
            0u64
        }) | (if xd {
            0x8000_0000_0000_0000u64
        } else {
            0u64
        })) & 0x8000_0000_0000_0fff == (0x1u64 | 0x80u64 | (if rw {
            0x2u64
        } else {
            0u64
        }) | (if xd {
            0x8000_0000_0000_0000u64
        } else {
            0u64
        })),
        (0x1u64 | (if rw {
            0x2u64
        } else {
            0u64
        }) | (if xd {
            0x8000_0000_0000_0000u64
        } else {
            0u64
        })) & 0x87f0_0000_0000_0fff == (0x1u64 | (if rw {
            0x2u64
        } else {
            0u64
        }) | (if xd {
            0x8000_0000_0000_0000u64
        } else {
            0u64
        })),
        (0x1u64 | 0x2u64) & 0x8000_0000_0000_0fff == (0x1u64 | 0x2u64),
        (0x1u64 | 0x2u64 | 0x8u64 | 0x10u64) & 0x87f0_0000_0000_0fff == (0x1u64 | 0x2u64 | 0x8u64
            | 0x10u64),
        (0x1u64 | 0x2u64 | 0x8000_0000_0000_0000u64) & 0x87f0_0000_0000_0fff == (0x1u64 | 0x2u64
            | 0x8000_0000_0000_0000u64),
{
}

/// The fixed link-time addresses are aligned: the kernel window offset on
/// every page size, and the fallback-table array on pages.
proof fn lemma_link_constants()
    by (bit_vector)
    ensures
        0xffff_ffff_8000_0000u64 % 0x1000u64 == 0,
        0xffff_ffff_8000_0000u64 % 0x20_0000u64 == 0,
        0xffff_ffff_8000_0000u64 % 0x4000_0000u64 == 0,
        0xffff_ffff_a000_0000u64 % 0x1000u64 == 0,
        0xffff_ffff_c000_0000u64 % 0x4000_0000u64 == 0,
        0xffff_ff80_0000_0000u64 % 0x4000_0000u64 == 0,
{
}

/// The middle-level slot `k` received a write while mapping `[start, hi)`
/// of the kernel window: it holds a whole huge chunk, or a page of the
/// 4 KiB tail that begins at `he`.
pub open spec fn pd_slot_touched(start: u64, hi: int, he: int, k: int) -> bool {
    ||| exists|v3: u64|
        start <= v3 < hi && v3 < he && v3 % (MEGA_PAGE as u64) == 0 && window_pd_index(
            v3,
            linker::VIRT_OFFSET,
        ) == k
    ||| exists|v3: u64|
        he <= v3 < hi && v3 % (BASE_PAGE as u64) == 0 && window_pd_index(v3, linker::VIRT_OFFSET)
            == k
}

/// The first page boundary at or after `end`: the loop maps whole 4 KiB
/// pages, so a range with an unaligned end is covered up to here.
pub open spec fn spec_page_end(end: u64) -> int {
    crate::mm::paging::spec_align_up(end as int, BASE_PAGE as int)
}

/// The first address after the huge-page-mapped prefix of `[start, end)`:
/// as many whole 2 MiB pages as fit are mapped huge, the rest falls back to
/// 4 KiB pages.
pub open spec fn spec_huge_end(start: u64, end: u64) -> int {
    start + ((end - start) / (MEGA_PAGE as int)) * (MEGA_PAGE as int)
}

/// The kernel-window effect of mapping the section `[start, end)` with the
/// given access: every whole 2 MiB chunk holds a huge entry, every page of
/// the 4 KiB tail holds a lowest-level entry in the fallback table of its
/// slot, and that slot points at the fallback table, present and writable.
/// `pre` names the tables before the pass, `post` after it.
pub open spec fn section_mapped(
    pre_pd: PD,
    post_pd: PD,
    pre_pts: Seq<PT>,
    post_pts: Seq<PT>,
    pts_vbase: u64,
    start: u64,
    end: u64,
    rw: bool,
    xd: bool,
) -> bool {
    &&& forall|v: u64|
        #![trigger window_pd_index(v, linker::VIRT_OFFSET)]
        start <= v < spec_huge_end(start, end) && v % (MEGA_PAGE as u64) == 0
            ==> post_pd.table@[window_pd_index(v, linker::VIRT_OFFSET)] == (PDE {
            bits: spec_entry_bits(
                (v - linker::VIRT_OFFSET) as u64,
                spec_apply_policy(
                    pre_pd.table@[window_pd_index(v, linker::VIRT_OFFSET)].bits
                        & ENTRY_FLAGS_MASK,
                    Flags::Enable(spec_section_pd_flags(rw, xd)),
                ),
            ),
        })
    &&& forall|v: u64|
        #![trigger window_pt_index(v)]
        spec_huge_end(start, end) <= v < spec_page_end(end) && v % (BASE_PAGE as u64) == 0
            ==> post_pts[window_pd_index(v, linker::VIRT_OFFSET)].table@[window_pt_index(v)]
            == (PTE {
            bits: spec_entry_bits(
                (v - linker::VIRT_OFFSET) as u64,
                spec_apply_policy(
                    pre_pts[window_pd_index(v, linker::VIRT_OFFSET)].table@[window_pt_index(
                        v,
                    )].bits & PTE_FLAGS_MASK,
                    Flags::Enable(spec_section_pt_flags(rw, xd)),
                ),
            ),
        })
    &&& forall|v: u64|
        #![trigger window_pd_index(v, linker::VIRT_OFFSET)]
        spec_huge_end(start, end) <= v < spec_page_end(end) && v % (BASE_PAGE as u64) == 0
            ==> post_pd.table@[window_pd_index(v, linker::VIRT_OFFSET)] == (PDE {
            bits: spec_entry_bits(
                (pts_vbase + window_pd_index(v, linker::VIRT_OFFSET) * BASE_PAGE
                    - linker::VIRT_OFFSET) as u64,
                (pre_pd.table@[window_pd_index(v, linker::VIRT_OFFSET)].bits & ENTRY_FLAGS_MASK)
                    | (ENTRY_P | ENTRY_RW),
            ),
        })
}

/// Re-enabling present and writable on a fallback-table pointer leaves the
/// entry's flag word unchanged.
proof fn lemma_entry_flag_stable(p: u64, x: u64)
    by (bit_vector)
    ensures
        (((p & 0x000f_ffff_ffff_f000u64) | ((x & 0x8000_0000_0000_0fffu64) | (0x1u64 | 0x2u64)))
            & 0x8000_0000_0000_0fffu64) | (0x1u64 | 0x2u64) == (x & 0x8000_0000_0000_0fffu64) | (
        0x1u64 | 0x2u64),
{
}

/// The lowest-level entry `(t, j)` of the kernel window covers a page of
/// the 4 KiB tail of the section `[start, end)`.
pub open spec fn section_tail_page(start: u64, end: u64, t: int, j: int) -> bool {
    spec_huge_end(start, end) <= linker::VIRT_OFFSET + t * MEGA_PAGE + j * BASE_PAGE
        < spec_page_end(end)
}

/// A middle-level slot whose 2 MiB chunk lies entirely below a section's
/// start, or entirely at or above its page-covered end, is not written
/// while mapping that section.
proof fn lemma_slot_untouched(s: u64, e: u64, k: int)
    requires
        crate::linker::section_wf(s, e),
        0 <= k < 512,
        linker::VIRT_OFFSET + (k + 1) * MEGA_PAGE <= s as int || linker::VIRT_OFFSET + k
            * MEGA_PAGE >= spec_page_end(e),
    ensures
        !pd_slot_touched(s, spec_page_end(e), spec_huge_end(s, e), k),
{
    lemma_section_bounds(s, e);
    let vo = linker::VIRT_OFFSET;
    if pd_slot_touched(s, spec_page_end(e), spec_huge_end(s, e), k) {
        if exists|v3: u64|
            s <= v3 < spec_page_end(e) && v3 < spec_huge_end(s, e) && v3 % (MEGA_PAGE as u64) == 0
                && window_pd_index(v3, vo) == k {
            let v3 = choose|v3: u64|
                s <= v3 < spec_page_end(e) && v3 < spec_huge_end(s, e) && v3 % (MEGA_PAGE as u64)
                    == 0 && window_pd_index(v3, vo) == k;
            lemma_link_constants();
            lemma_window_index_bridge(v3, vo);
        } else {
            let v3 = choose|v3: u64|
                spec_huge_end(s, e) <= v3 < spec_page_end(e) && v3 % (BASE_PAGE as u64) == 0
                    && window_pd_index(v3, vo) == k;
            lemma_link_constants();
            lemma_window_index_bridge(v3, vo);
        }
        assert(false);
    }
}

/// Bounds of one section's huge-mapped prefix and page-covered extent.
proof fn lemma_section_bounds(start: u64, end: u64)
    requires
        crate::linker::section_wf(start, end),
    ensures
        start <= spec_huge_end(start, end) <= end <= spec_page_end(end),
        spec_page_end(end) < end + BASE_PAGE,
        forall|v: u64|
            start <= v < spec_huge_end(start, end) && #[trigger] (v % (MEGA_PAGE as u64)) == 0
                ==> v + MEGA_PAGE <= spec_huge_end(start, end),
{
    let m = MEGA_PAGE as int;
    let q = (end - start) / m;
    vstd::arithmetic::div_mod::lemma_fundamental_div_mod(end - start, m);
    vstd::arithmetic::div_mod::lemma_mod_bound(end - start, m);
    assert(m * q == q * m) by (nonlinear_arith);
    crate::mm::paging::lemma_align_down_multiple(end + BASE_PAGE - 1, BASE_PAGE as int);
    vstd::arithmetic::div_mod::lemma_mod_bound(end + BASE_PAGE - 1, BASE_PAGE as int);
    assert(end <= spec_page_end(end) < end + BASE_PAGE) by {
        crate::mm::paging::lemma_multiple_props(spec_page_end(end), 0, BASE_PAGE as int);
    }
    let he = spec_huge_end(start, end);
    assert forall|v: u64|
        start <= v < he && #[trigger] (v % (MEGA_PAGE as u64)) == 0 implies v + MEGA_PAGE
        <= he by {
        assert(q >= 1) by (nonlinear_arith)
            requires
                q * m > v - start >= 0,
                m > 0,
        ;
        assert(end - start >= m) by (nonlinear_arith)
            requires
                end - start == q * m + (end - start) % m,
                q >= 1,
                m > 0,
                (end - start) % m >= 0,
        ;
        assert(start % (MEGA_PAGE as u64) == 0);
        vstd::arithmetic::div_mod::lemma_mod_multiples_basic(q, m);
        vstd::arithmetic::div_mod::lemma_add_mod_noop(start as int, q * m, m);
        vstd::arithmetic::div_mod::lemma_mod_bound(start as int, m);
        vstd::arithmetic::div_mod::lemma_small_mod((start as int % m) as nat, m as nat);
        assert(he % m == 0);
        crate::mm::paging::lemma_multiple_props(he, v as int, m);
    }
}

/// Map the virtual range `[start, end)` of the kernel window to the
/// physical addresses `link offset` below it.
///
/// Whole 2 MiB chunks are mapped as huge pages; the unaligned tail falls
/// back to installing (or reusing) lowest-level tables and mapping 4 KiB
/// pages individually.  `window_base` is the 1 GiB-aligned start of the
/// window (equal to the link offset) and `pts_vbase` the address of the
/// first of the 256 fallback tables.
#[verifier::rlimit(100)]
#[verifier::spinoff_prover]
pub fn map_range(
    mapper: &PdMapper,
    pd: &mut PD,
    pts: &mut Vec<PT>,
    pts_vbase: u64,
    start: u64,
    end: u64,
    rw: bool,
    xd: bool,
)
    requires
        mapper.wf(),
        old(pd).wf(),
        old(pts)@.len() == linker::NUM_KERN_PTS,
        forall|t: int| 0 <= t < linker::NUM_KERN_PTS ==> (#[trigger] old(pts)@[t]).wf(),
        mapper.link_offset == linker::VIRT_OFFSET,
        pts_vbase % (BASE_PAGE as u64) == 0,
        pts_vbase >= mapper.link_offset,
        pts_vbase + linker::NUM_KERN_PTS * BASE_PAGE <= u64::MAX,
        crate::linker::section_wf(start, end),
    ensures
        final(pd).wf(),
        final(pts)@.len() == linker::NUM_KERN_PTS,
        forall|t: int| 0 <= t < linker::NUM_KERN_PTS ==> (#[trigger] final(pts)@[t]).wf(),
        // Frame: middle-level slots whose 2 MiB range misses `[start, end)`
        // keep their entries.
        forall|k: int|
            #![trigger final(pd).table@[k]]
            0 <= k < 512 && (linker::VIRT_OFFSET + k * MEGA_PAGE >= spec_page_end(end)
                || linker::VIRT_OFFSET + (k + 1) * MEGA_PAGE <= start) ==> final(pd).table@[k]
                == old(pd).table@[k],
        // Frame, exactly: a middle-level slot changes only by holding a whole
        // huge chunk or a page of the 4 KiB tail.
        forall|k: int|
            #![trigger final(pd).table@[k]]
            0 <= k < 512 && !pd_slot_touched(
                start,
                spec_page_end(end),
                spec_huge_end(start, end),
                k,
            ) ==> final(pd).table@[k] == old(pd).table@[k],
        // Frame: lowest-level entries keep their values unless their page
        // lies in the 4 KiB tail.
        forall|t: int, j: int|
            #![trigger final(pts)@[t].table@[j]]
            0 <= t < linker::NUM_KERN_PTS && 0 <= j < 512 && (linker::VIRT_OFFSET + t * MEGA_PAGE
                + j * BASE_PAGE < spec_huge_end(start, end) || linker::VIRT_OFFSET + t * MEGA_PAGE
                + j * BASE_PAGE >= spec_page_end(end)) ==> final(pts)@[t].table@[j] == old(
                pts,
            )@[t].table@[j],
        // Every whole 2 MiB chunk got a huge entry, enabling the section
        // flags over whatever the slot held.
        forall|v: u64|
            #![trigger window_pd_index(v, linker::VIRT_OFFSET)]
            start <= v < spec_huge_end(start, end) && v % (MEGA_PAGE as u64) == 0
                ==> final(pd).table@[window_pd_index(v, linker::VIRT_OFFSET)] == (PDE {
                bits: spec_entry_bits(
                    (v - linker::VIRT_OFFSET) as u64,
                    spec_apply_policy(
                        old(pd).table@[window_pd_index(v, linker::VIRT_OFFSET)].bits
                            & ENTRY_FLAGS_MASK,
                        Flags::Enable(spec_section_pd_flags(rw, xd)),
                    ),
                ),
            }),
        // Every page of the tail got a 4 KiB entry in the window's fallback
        // table for its slot...
        forall|v: u64|
            #![trigger window_pt_index(v)]
            spec_huge_end(start, end) <= v < spec_page_end(end) && v % (BASE_PAGE as u64) == 0
                ==> final(pts)@[window_pd_index(v, linker::VIRT_OFFSET)].table@[window_pt_index(v)]
                == (PTE {
                bits: spec_entry_bits(
                    (v - linker::VIRT_OFFSET) as u64,
                    spec_apply_policy(
                        old(pts)@[window_pd_index(
                            v,
                            linker::VIRT_OFFSET,
                        )].table@[window_pt_index(v)].bits & PTE_FLAGS_MASK,
                        Flags::Enable(spec_section_pt_flags(rw, xd)),
                    ),
                ),
            }),
        // ... and its middle-level slot points at that table, with present
        // and writable enabled over whatever the slot held.
        forall|v: u64|
            #![trigger window_pd_index(v, linker::VIRT_OFFSET)]
            spec_huge_end(start, end) <= v < spec_page_end(end) && v % (BASE_PAGE as u64) == 0
                ==> final(pd).table@[window_pd_index(v, linker::VIRT_OFFSET)] == (PDE {
                bits: spec_entry_bits(
                    (pts_vbase + window_pd_index(v, linker::VIRT_OFFSET) * BASE_PAGE
                        - mapper.link_offset) as u64,
                    spec_apply_policy(
                        old(pd).table@[window_pd_index(v, linker::VIRT_OFFSET)].bits
                            & ENTRY_FLAGS_MASK,
                        Flags::Enable(ENTRY_P | ENTRY_RW),
                    ),
                ),
            }),
{
    let pd_flags = section_pd_flags(rw, xd);
    let pt_flags = section_pt_flags(rw, xd);

    let ghost he = spec_huge_end(start, end);
    let mut virt = start;

    proof {
        let m = MEGA_PAGE as int;
        let q = (end - start) / m;
        vstd::arithmetic::div_mod::lemma_fundamental_div_mod(end - start, m);
        vstd::arithmetic::div_mod::lemma_mod_bound(end - start, m);
        assert(m * q == q * m) by (nonlinear_arith);
        assert(start <= he <= end);
        assert(end - he < m);
        vstd::arithmetic::div_mod::lemma_mod_multiples_basic(q, m);
        vstd::arithmetic::div_mod::lemma_add_mod_noop(start as int, q * m, m);
        vstd::arithmetic::div_mod::lemma_mod_bound(start as int, m);
        vstd::arithmetic::div_mod::lemma_small_mod((start as int % m) as nat, m as nat);
        assert(he % m == start as int % m);
        crate::mm::paging::lemma_align_down_multiple(
            end + BASE_PAGE - 1,
            BASE_PAGE as int,
        );
        vstd::arithmetic::div_mod::lemma_mod_bound(end + BASE_PAGE - 1, BASE_PAGE as int);
        assert(end <= spec_page_end(end) < end + BASE_PAGE) by {
            crate::mm::paging::lemma_multiple_props(
                spec_page_end(end),
                0,
                BASE_PAGE as int,
            );
        }
        if start < he {
            assert(q >= 1) by (nonlinear_arith)
                requires
                    q * m > 0,
                    m > 0,
            ;
            assert(q * m >= m) by (nonlinear_arith)
                requires
                    q >= 1,
                    m > 0,
            ;
            assert(end - start >= MEGA_PAGE);
        }
    }

    while virt < end
        invariant
            mapper.wf(),
            mapper.link_offset == linker::VIRT_OFFSET,
            pts_vbase % (BASE_PAGE as u64) == 0,
            pts_vbase >= mapper.link_offset,
            pts_vbase + linker::NUM_KERN_PTS * BASE_PAGE <= u64::MAX,
            crate::linker::section_wf(start, end),
            he == spec_huge_end(start, end),
            pd_flags == spec_section_pd_flags(rw, xd),
            pt_flags == spec_section_pt_flags(rw, xd),
            start <= he <= end,
            end - he < MEGA_PAGE,
            he % (MEGA_PAGE as int) == start as int % (MEGA_PAGE as int),
            start <= virt <= spec_page_end(end),
            end <= spec_page_end(end) < end + BASE_PAGE,
            spec_page_end(end) % (BASE_PAGE as int) == 0,
            virt % (BASE_PAGE as u64) == 0,
            virt < he ==> virt % (MEGA_PAGE as u64) == 0 && he - virt >= MEGA_PAGE,
            virt > he ==> virt >= he,
            pd.wf(),
            pts@.len() == linker::NUM_KERN_PTS,
            forall|t: int| 0 <= t < linker::NUM_KERN_PTS ==> (#[trigger] pts@[t]).wf(),
            forall|k: int|
                #![trigger pd.table@[k]]
                0 <= k < 512 && !pd_slot_touched(start, virt as int, he, k) ==> pd.table@[k] == old(
                    pd,
                ).table@[k],
            forall|t: int, j: int|
                #![trigger pts@[t].table@[j]]
                0 <= t < linker::NUM_KERN_PTS && 0 <= j < 512 && (linker::VIRT_OFFSET + t
                    * MEGA_PAGE + j * BASE_PAGE < he || linker::VIRT_OFFSET + t * MEGA_PAGE + j
                    * BASE_PAGE >= virt) ==> pts@[t].table@[j] == old(pts)@[t].table@[j],
            forall|v: u64|
                #![trigger window_pd_index(v, linker::VIRT_OFFSET)]
                start <= v < virt && v < he && v % (MEGA_PAGE as u64) == 0 ==> pd.table@[
                window_pd_index(v, linker::VIRT_OFFSET)] == (PDE {
                    bits: spec_entry_bits(
                        (v - linker::VIRT_OFFSET) as u64,
                        spec_apply_policy(
                            old(pd).table@[window_pd_index(
                                v,
                                linker::VIRT_OFFSET,
                            )].bits & ENTRY_FLAGS_MASK,
                            Flags::Enable(spec_section_pd_flags(rw, xd)),
                        ),
                    ),
                }),
            forall|v: u64|
                #![trigger window_pt_index(v)]
                he <= v < virt && v % (BASE_PAGE as u64) == 0 ==> pts@[window_pd_index(
                    v,
                    linker::VIRT_OFFSET,
                )].table@[window_pt_index(v)] == (PTE {
                    bits: spec_entry_bits(
                        (v - linker::VIRT_OFFSET) as u64,
                        spec_apply_policy(
                            old(pts)@[window_pd_index(
                                v,
                                linker::VIRT_OFFSET,
                            )].table@[window_pt_index(v)].bits & PTE_FLAGS_MASK,
                            Flags::Enable(spec_section_pt_flags(rw, xd)),
                        ),
                    ),
                }),
            forall|v: u64|
                #![trigger window_pd_index(v, linker::VIRT_OFFSET)]
                he <= v < virt && v % (BASE_PAGE as u64) == 0 ==> pd.table@[window_pd_index(
                    v,
                    linker::VIRT_OFFSET,
                )] == (PDE {
                    bits: spec_entry_bits(
                        (pts_vbase + window_pd_index(v, linker::VIRT_OFFSET)
                            * BASE_PAGE - mapper.link_offset) as u64,
                        spec_apply_policy(
                            old(pd).table@[window_pd_index(v, linker::VIRT_OFFSET)].bits
                                & ENTRY_FLAGS_MASK,
                            Flags::Enable(ENTRY_P | ENTRY_RW),
                        ),
                    ),
                }),
        decreases spec_page_end(end) - virt,
    {
        let ghost m = MEGA_PAGE as int;
        let ghost pd_entry = pd.table@;
        let ghost pts_entry = pts@;
        proof {
            lemma_window_index_bridge(virt, linker::VIRT_OFFSET);
        }
        if end - virt >= MEGA_PAGE as u64 {
            proof {
                assert(end - start >= MEGA_PAGE);
                if virt >= he {
                    assert(end - virt < m);
                }
                assert(virt < he && virt % (MEGA_PAGE as u64) == 0);
                lemma_link_constants();
                assert(linker::VIRT_OFFSET as int % m == 0);
                crate::mm::paging::lemma_multiple_props(
                    virt as int,
                    linker::VIRT_OFFSET as int,
                    m,
                );
            }
            let idx = pd_index(virt);
            mapper.map(pd, idx, virt - linker::VIRT_OFFSET, Flags::Enable(pd_flags));
            let ghost v0 = virt;
            virt = virt + MEGA_PAGE as u64;
            proof {
                vstd::arithmetic::div_mod::lemma_mod_multiples_basic(1int, m);
                crate::mm::paging::lemma_multiple_props(v0 as int, m, m);
                assert(virt % (MEGA_PAGE as u64) == 0);
                if virt < he {
                    crate::mm::paging::lemma_multiple_props(he, virt as int, m);
                }
                // The write landed in slot `wpd(v0)`; every other slot is
                // unchanged.
                assert forall|v2: u64|
                    start <= v2 < virt && v2 < he && v2 % (MEGA_PAGE as u64) == 0 implies pd.table@[
                    window_pd_index(v2, linker::VIRT_OFFSET)] == (PDE {
                        bits: spec_entry_bits(
                            (v2 - linker::VIRT_OFFSET) as u64,
                            spec_apply_policy(
                                old(pd).table@[window_pd_index(v2, linker::VIRT_OFFSET)].bits
                                    & ENTRY_FLAGS_MASK,
                                Flags::Enable(spec_section_pd_flags(rw, xd)),
                            ),
                        ),
                    }) by {
                    lemma_window_index_bridge(v2, linker::VIRT_OFFSET);
                    if v2 != v0 {
                        assert(window_pd_index(v2, linker::VIRT_OFFSET) != window_pd_index(
                            v0,
                            linker::VIRT_OFFSET,
                        ));
                        assert(pd.table@[window_pd_index(v2, linker::VIRT_OFFSET)] == pd_entry[
                            window_pd_index(v2, linker::VIRT_OFFSET)]);
                    } else {
                        // The slot of the new chunk was untouched before this
                        // iteration: earlier chunks sit in lower slots and the
                        // tail has not begun.
                        assert(v0 as int % (MEGA_PAGE as int) == 0);
                        assert(v0 == linker::VIRT_OFFSET + window_pd_index(
                            v0,
                            linker::VIRT_OFFSET,
                        ) * MEGA_PAGE);
                        let k0 = window_pd_index(v0, linker::VIRT_OFFSET);
                        if pd_slot_touched(start, v0 as int, he, k0) {
                            if exists|v3: u64|
                                start <= v3 < v0 && v3 < he && v3 % (MEGA_PAGE as u64) == 0
                                    && window_pd_index(v3, linker::VIRT_OFFSET) == k0 {
                                let v3 = choose|v3: u64|
                                    start <= v3 < v0 && v3 < he && v3 % (MEGA_PAGE as u64) == 0
                                        && window_pd_index(v3, linker::VIRT_OFFSET) == k0;
                                lemma_window_index_bridge(v3, linker::VIRT_OFFSET);
                            }
                            assert(false);
                        }
                        assert(pd_entry[k0] == old(pd).table@[k0]);
                        assert(idx as int == k0);
                    }
                }
                assert forall|k: int|
                    0 <= k < 512 && !pd_slot_touched(start, virt as int, he, k) implies pd.table@[k]
                    == old(pd).table@[k] by {
                    if k == window_pd_index(v0, linker::VIRT_OFFSET) {
                        assert(start <= v0 < virt && v0 < he && v0 % (MEGA_PAGE as u64) == 0
                            && window_pd_index(v0, linker::VIRT_OFFSET) == k);
                        assert(pd_slot_touched(start, virt as int, he, k));
                    } else {
                        assert(pd.table@[k] == pd_entry[k]);
                        if pd_slot_touched(start, v0 as int, he, k) {
                            if exists|v3: u64|
                                start <= v3 < v0 && v3 < he && v3 % (MEGA_PAGE as u64) == 0
                                    && window_pd_index(v3, linker::VIRT_OFFSET) == k {
                                let v3 = choose|v3: u64|
                                    start <= v3 < v0 && v3 < he && v3 % (MEGA_PAGE as u64) == 0
                                        && window_pd_index(v3, linker::VIRT_OFFSET) == k;
                                assert(start <= v3 < virt && v3 < he && v3 % (MEGA_PAGE as u64)
                                    == 0 && window_pd_index(v3, linker::VIRT_OFFSET) == k);
                            } else {
                                let v3 = choose|v3: u64|
                                    he <= v3 < v0 && v3 % (BASE_PAGE as u64) == 0
                                        && window_pd_index(v3, linker::VIRT_OFFSET) == k;
                                assert(he <= v3 < virt && v3 % (BASE_PAGE as u64) == 0
                                    && window_pd_index(v3, linker::VIRT_OFFSET) == k);
                            }
                            assert(pd_slot_touched(start, virt as int, he, k));
                        }
                    }
                }
            }
        } else {
            proof {
                lemma_window_index_bridge(linker::VIRT_OFFSET, linker::VIRT_OFFSET);
                // The cursor has reached the 4 KiB tail.
                if virt < he {
                    assert(he - virt >= MEGA_PAGE);
                    assert(end - virt >= MEGA_PAGE);
                }
                assert(virt >= he);
            }
            let idx = pd_index(virt);
            let pt_i = idx - pd_index(linker::VIRT_OFFSET);
            proof {
                lemma_link_constants();
                let d = virt - linker::VIRT_OFFSET;
                vstd::arithmetic::div_mod::lemma_fundamental_div_mod(d as int, m);
                vstd::arithmetic::div_mod::lemma_mod_bound(d as int, m);
                assert(d < 256 * MEGA_PAGE);
                assert(window_pd_index(virt, linker::VIRT_OFFSET) < 256) by (nonlinear_arith)
                    requires
                        m * window_pd_index(virt, linker::VIRT_OFFSET) <= virt
                            - linker::VIRT_OFFSET,
                        virt - linker::VIRT_OFFSET < 256 * m,
                        m > 0,
                        window_pd_index(virt, linker::VIRT_OFFSET) == (virt
                            - linker::VIRT_OFFSET) / m,
                ;
                assert(pt_i < linker::NUM_KERN_PTS);
            }
            let pt_vaddr = pts_vbase + (pt_i as u64) * (BASE_PAGE as u64);
            proof {
                vstd::arithmetic::div_mod::lemma_mod_multiples_basic(
                    pt_i as int,
                    BASE_PAGE as int,
                );
                crate::mm::paging::lemma_multiple_props(
                    pts_vbase as int,
                    pt_i as int * BASE_PAGE,
                    BASE_PAGE as int,
                );
            }
            proof {
                assert(linker::VIRT_OFFSET as int % (BASE_PAGE as int) == 0);
                crate::mm::paging::lemma_multiple_props(
                    virt as int,
                    linker::VIRT_OFFSET as int,
                    BASE_PAGE as int,
                );
            }
            let mut pt = pts.remove(pt_i);
            let tm = mapper.pt(pd, idx, pt_vaddr, Flags::Enable(ENTRY_P | ENTRY_RW));
            tm.map(&mut pt, pt_index(virt), virt - linker::VIRT_OFFSET, Flags::Enable(pt_flags));
            pts.insert(pt_i, pt);
            let ghost v0 = virt;
            virt = virt + BASE_PAGE as u64;
            proof {
                vstd::arithmetic::div_mod::lemma_mod_multiples_basic(1int, BASE_PAGE as int);
                // The cursor stays within one page of the end.
                crate::mm::paging::lemma_multiple_props(
                    spec_page_end(end),
                    v0 as int,
                    BASE_PAGE as int,
                );
                crate::mm::paging::lemma_multiple_props(v0 as int, BASE_PAGE as int, BASE_PAGE as int);
                assert(pts@ =~= pts_entry.update(pt_i as int, pt));
                // Huge entries written earlier sit in slots strictly below
                // the tail slot, so the descend left them alone.
                assert forall|v2: u64|
                    start <= v2 < virt && v2 < he && v2 % (MEGA_PAGE as u64) == 0 implies pd.table@[
                    window_pd_index(v2, linker::VIRT_OFFSET)] == (PDE {
                        bits: spec_entry_bits(
                            (v2 - linker::VIRT_OFFSET) as u64,
                            spec_apply_policy(
                                old(pd).table@[window_pd_index(v2, linker::VIRT_OFFSET)].bits
                                    & ENTRY_FLAGS_MASK,
                                Flags::Enable(spec_section_pd_flags(rw, xd)),
                            ),
                        ),
                    }) by {
                    lemma_window_index_bridge(v2, linker::VIRT_OFFSET);
                    // A huge chunk exists, so the whole range spans at least
                    // one huge page and its bounds are 2 MiB-aligned.
                    vstd::arithmetic::div_mod::lemma_sub_mod_noop(he, start as int, m);
                    crate::mm::paging::lemma_multiple_props(he, start as int, m);
                    assert(end - start >= MEGA_PAGE);
                    crate::mm::paging::lemma_multiple_props(he, v2 as int, m);
                    assert(v2 + MEGA_PAGE <= he <= v0);
                    assert(window_pd_index(v2, linker::VIRT_OFFSET) * m + m <= window_pd_index(
                        v0,
                        linker::VIRT_OFFSET,
                    ) * m + window_pt_index(v0) * BASE_PAGE);
                    assert(window_pd_index(v2, linker::VIRT_OFFSET) < window_pd_index(
                        v0,
                        linker::VIRT_OFFSET,
                    )) by (nonlinear_arith)
                        requires
                            window_pd_index(v2, linker::VIRT_OFFSET) * m + m <= window_pd_index(
                                v0,
                                linker::VIRT_OFFSET,
                            ) * m + window_pt_index(v0) * BASE_PAGE,
                            0 <= window_pt_index(v0) < 512,
                            BASE_PAGE as int * 512 == m,
                            m > 0,
                    ;
                }
                // The tail's lowest-level entries: the new page was written,
                // older pages kept their entries.
                assert forall|v2: u64|
                    he <= v2 < virt && v2 % (BASE_PAGE as u64) == 0 implies pts@[window_pd_index(
                    v2,
                    linker::VIRT_OFFSET,
                )].table@[window_pt_index(v2)] == (PTE {
                    bits: spec_entry_bits(
                        (v2 - linker::VIRT_OFFSET) as u64,
                        spec_apply_policy(
                            old(pts)@[window_pd_index(
                                v2,
                                linker::VIRT_OFFSET,
                            )].table@[window_pt_index(v2)].bits & PTE_FLAGS_MASK,
                            Flags::Enable(spec_section_pt_flags(rw, xd)),
                        ),
                    ),
                }) by {
                    lemma_window_index_bridge(v2, linker::VIRT_OFFSET);
                    if v2 != v0 {
                        assert(v2 < v0);
                        assert(window_pd_index(v2, linker::VIRT_OFFSET) != pt_i as int
                            || window_pt_index(v2) != window_pt_index(v0));
                        assert(pts_entry[window_pd_index(v2, linker::VIRT_OFFSET)].table@[
                            window_pt_index(v2)] == pts@[window_pd_index(
                            v2,
                            linker::VIRT_OFFSET,
                        )].table@[window_pt_index(v2)]);
                    } else {
                        // This page's entry was untouched before this
                        // iteration.
                        assert(linker::VIRT_OFFSET + (pt_i as int) * MEGA_PAGE + window_pt_index(
                            v0,
                        ) * BASE_PAGE >= v0);
                        assert(pts_entry[pt_i as int].table@[window_pt_index(v0)] == old(
                            pts,
                        )@[pt_i as int].table@[window_pt_index(v0)]);
                    }
                }
                // The tail's middle-level slots all point at their fallback
                // table; rewriting one is idempotent.
                assert forall|v2: u64|
                    he <= v2 < virt && v2 % (BASE_PAGE as u64) == 0 implies pd.table@[
                    window_pd_index(v2, linker::VIRT_OFFSET)] == (PDE {
                        bits: spec_entry_bits(
                            (pts_vbase + window_pd_index(v2, linker::VIRT_OFFSET) * BASE_PAGE
                                - mapper.link_offset) as u64,
                            spec_apply_policy(
                                old(pd).table@[window_pd_index(v2, linker::VIRT_OFFSET)].bits
                                    & ENTRY_FLAGS_MASK,
                                Flags::Enable(ENTRY_P | ENTRY_RW),
                            ),
                        ),
                    }) by {
                    lemma_window_index_bridge(v2, linker::VIRT_OFFSET);
                    if window_pd_index(v2, linker::VIRT_OFFSET) == pt_i as int {
                        // Earlier huge chunks sit in strictly lower slots.
                        if exists|v3: u64|
                            start <= v3 < v0 && v3 < he && v3 % (MEGA_PAGE as u64) == 0
                                && window_pd_index(v3, linker::VIRT_OFFSET) == pt_i as int {
                            let v3 = choose|v3: u64|
                                start <= v3 < v0 && v3 < he && v3 % (MEGA_PAGE as u64) == 0
                                    && window_pd_index(v3, linker::VIRT_OFFSET) == pt_i as int;
                            lemma_window_index_bridge(v3, linker::VIRT_OFFSET);
                            vstd::arithmetic::div_mod::lemma_sub_mod_noop(he, start as int, m);
                            crate::mm::paging::lemma_multiple_props(he, start as int, m);
                            crate::mm::paging::lemma_multiple_props(he, v3 as int, m);
                            assert(v3 + MEGA_PAGE <= he <= v0);
                            assert(false);
                        }
                        // This slot was just rewritten.  If it had been
                        // written before, enabling present and writable again
                        // leaves the same word.
                        if exists|v3: u64|
                            he <= v3 < v0 && v3 % (BASE_PAGE as u64) == 0 && window_pd_index(
                                v3,
                                linker::VIRT_OFFSET,
                            ) == pt_i as int {
                            let v3 = choose|v3: u64|
                                he <= v3 < v0 && v3 % (BASE_PAGE as u64) == 0 && window_pd_index(
                                    v3,
                                    linker::VIRT_OFFSET,
                                ) == pt_i as int;
                            lemma_section_flags_defined(rw, xd);
                            lemma_or_masked_stable(
                                old(pd).table@[pt_i as int].bits,
                                ENTRY_P | ENTRY_RW,
                                ENTRY_FLAGS_MASK,
                            );
                            crate::mm::map::lemma_flags_roundtrip(
                                (pts_vbase + (pt_i as u64) * (BASE_PAGE as u64)
                                    - mapper.link_offset) as u64,
                                (old(pd).table@[pt_i as int].bits & ENTRY_FLAGS_MASK) | (ENTRY_P
                                    | ENTRY_RW),
                                Flags::Enable(ENTRY_P | ENTRY_RW),
                                ENTRY_FLAGS_MASK,
                            );
                        } else {
                            // First page of this slot: the slot still holds
                            // its original entry.
                            assert(!pd_slot_touched(start, v0 as int, he, pt_i as int));
                            assert(pd_entry[pt_i as int] == old(pd).table@[pt_i as int]);
                        }
                    } else {
                        assert(pd.table@[window_pd_index(v2, linker::VIRT_OFFSET)] == pd_entry[
                            window_pd_index(v2, linker::VIRT_OFFSET)]);
                    }
                }
                // Untouched middle-level slots keep their entries.
                assert forall|k: int|
                    0 <= k < 512 && !pd_slot_touched(start, virt as int, he, k) implies pd.table@[k]
                    == old(pd).table@[k] by {
                    if k == pt_i as int {
                        assert(he <= v0 < virt && v0 % (BASE_PAGE as u64) == 0 && window_pd_index(
                            v0,
                            linker::VIRT_OFFSET,
                        ) == k);
                        assert(pd_slot_touched(start, virt as int, he, k));
                    } else {
                        assert(pd.table@[k] == pd_entry[k]);
                        if pd_slot_touched(start, v0 as int, he, k) {
                            if exists|v3: u64|
                                start <= v3 < v0 && v3 < he && v3 % (MEGA_PAGE as u64) == 0
                                    && window_pd_index(v3, linker::VIRT_OFFSET) == k {
                                let v3 = choose|v3: u64|
                                    start <= v3 < v0 && v3 < he && v3 % (MEGA_PAGE as u64) == 0
                                        && window_pd_index(v3, linker::VIRT_OFFSET) == k;
                                assert(start <= v3 < virt && v3 < he && v3 % (MEGA_PAGE as u64)
                                    == 0 && window_pd_index(v3, linker::VIRT_OFFSET) == k);
                            } else {
                                let v3 = choose|v3: u64|
                                    he <= v3 < v0 && v3 % (BASE_PAGE as u64) == 0
                                        && window_pd_index(v3, linker::VIRT_OFFSET) == k;
                                assert(he <= v3 < virt && v3 % (BASE_PAGE as u64) == 0
                                    && window_pd_index(v3, linker::VIRT_OFFSET) == k);
                            }
                            assert(pd_slot_touched(start, virt as int, he, k));
                        }
                    }
                }
                // Untouched lowest-level entries keep their values.
                assert forall|t: int, j: int|
                    0 <= t < linker::NUM_KERN_PTS && 0 <= j < 512 && (linker::VIRT_OFFSET + t
                        * MEGA_PAGE + j * BASE_PAGE < he || linker::VIRT_OFFSET + t * MEGA_PAGE + j
                        * BASE_PAGE >= virt) implies pts@[t].table@[j] == old(pts)@[t].table@[j] by {
                    if t == pt_i as int && j == window_pt_index(v0) {
                        assert(linker::VIRT_OFFSET + t * MEGA_PAGE + j * BASE_PAGE == v0);
                    }
                }
            }
        }
    }
    proof {
        // The cursor stops exactly at the first page boundary past the end.
        crate::mm::paging::lemma_multiple_props(
            spec_page_end(end),
            virt as int,
            BASE_PAGE as int,
        );
        assert(virt == spec_page_end(end));
        // A slot whose 2 MiB range misses the mapped range was never touched.
        assert forall|k: int|
            0 <= k < 512 && (linker::VIRT_OFFSET + k * MEGA_PAGE >= spec_page_end(end)
                || linker::VIRT_OFFSET + (k + 1) * MEGA_PAGE <= start) implies pd.table@[k] == old(
            pd,
        ).table@[k] by {
            if pd_slot_touched(start, virt as int, he, k) {
                if exists|v3: u64|
                    start <= v3 < virt && v3 < he && v3 % (MEGA_PAGE as u64) == 0
                        && window_pd_index(v3, linker::VIRT_OFFSET) == k {
                    let v3 = choose|v3: u64|
                        start <= v3 < virt && v3 < he && v3 % (MEGA_PAGE as u64) == 0
                            && window_pd_index(v3, linker::VIRT_OFFSET) == k;
                    lemma_window_index_bridge(v3, linker::VIRT_OFFSET);
                } else {
                    let v3 = choose|v3: u64|
                        he <= v3 < virt && v3 % (BASE_PAGE as u64) == 0 && window_pd_index(
                            v3,
                            linker::VIRT_OFFSET,
                        ) == k;
                    lemma_window_index_bridge(v3, linker::VIRT_OFFSET);
                }
                assert(false);
            }
        }
    }
}

/// The memory work that finishes the secondary-processor bootstrap window,
/// to be performed through the physical-memory window once the tables are
/// active: zero `zero_len` bytes at physical `dst`, then copy `copy_len`
/// bytes of the bootstrap code image from physical `src` to `dst`.
#[derive(Debug, Clone, Copy, PartialEq, Eq, Structural)]
pub struct BootcodeSetup {
    pub dst: u64,
    pub zero_len: u64,
    pub src: u64,
    pub copy_len: u64,
}

/// The statically allocated translation tables, owned by one boot-sequence
/// object and threaded explicitly through every mapping pass.
pub struct KernelTables {
    /// Top-level table.  All other tables hang off it.
    pub top: PML4,
    /// Kernel-space middle-high-level table: the top half's last 512 GiB,
    /// holding kernel text and data, per-processor storage, and devices.
    pub kernel_pdpt: PDPT,
    /// Middle-level table of the 512 MiB window containing kernel text and
    /// data, mapped with 2 MiB pages where possible.
    pub kern_pd: PD,
    /// Lowest-level tables for fine-grained kernel-window mappings.
    pub kern_pts: Vec<PT>,
    /// Middle-level table for device registers.
    pub kdev_pd: PD,
    /// Lowest-level table for device registers.
    pub kdev_pt: PT,
    /// Middle-level tables for per-processor data.
    pub percpu_pds: Vec<PD>,
    /// Lowest-level tables for per-processor data, which is always mapped
    /// with 4 KiB pages since its frames come from the allocator one at a
    /// time.
    pub percpu_pts: Vec<PT>,
    /// Middle-high-level tables mapping all physical memory with 1 GiB
    /// pages.
    pub phys_pdpts: Vec<PDPT>,
}

impl KernelTables {
    pub open spec fn wf(self) -> bool {
        &&& self.top.wf()
        &&& self.kernel_pdpt.wf()
        &&& self.kern_pd.wf()
        &&& self.kern_pts@.len() == linker::NUM_KERN_PTS
        &&& (forall|t: int| 0 <= t < linker::NUM_KERN_PTS ==> (#[trigger] self.kern_pts@[t]).wf())
        &&& self.kdev_pd.wf()
        &&& self.kdev_pt.wf()
        &&& self.percpu_pds@.len() == linker::NUM_PERCPU_PDS
        &&& (forall|t: int|
            0 <= t < linker::NUM_PERCPU_PDS ==> (#[trigger] self.percpu_pds@[t]).wf())
        &&& self.percpu_pts@.len() == linker::NUM_PERCPU_PTS
        &&& (forall|t: int|
            0 <= t < linker::NUM_PERCPU_PTS ==> (#[trigger] self.percpu_pts@[t]).wf())
        &&& self.phys_pdpts@.len() == linker::NUM_PHYS_PDPTS
        &&& (forall|t: int|
            0 <= t < linker::NUM_PHYS_PDPTS ==> (#[trigger] self.phys_pdpts@[t]).wf())
    }

    /// Fresh, all-empty tables: every entry of every table is zero.
    pub fn new() -> (r: Self)
        ensures
            r.wf(),
            forall|i: int| #![trigger r.top.table@[i]] 0 <= i < 512 ==> r.top.table@[i].bits == 0,
            forall|i: int|
                #![trigger r.kernel_pdpt.table@[i]]
                0 <= i < 512 ==> r.kernel_pdpt.table@[i].bits == 0,
            forall|i: int|
                #![trigger r.kern_pd.table@[i]]
                0 <= i < 512 ==> r.kern_pd.table@[i].bits == 0,
            forall|i: int|
                #![trigger r.kdev_pd.table@[i]]
                0 <= i < 512 ==> r.kdev_pd.table@[i].bits == 0,
            forall|i: int|
                #![trigger r.kdev_pt.table@[i]]
                0 <= i < 512 ==> r.kdev_pt.table@[i].bits == 0,
            forall|t: int, i: int|
                #![trigger r.kern_pts@[t].table@[i]]
                0 <= t < linker::NUM_KERN_PTS && 0 <= i < 512 ==> r.kern_pts@[t].table@[i].bits
                    == 0,
            forall|t: int, i: int|
                #![trigger r.percpu_pds@[t].table@[i]]
                0 <= t < linker::NUM_PERCPU_PDS && 0 <= i < 512 ==> r.percpu_pds@[t].table@[i].bits
                    == 0,
            forall|t: int, i: int|
                #![trigger r.percpu_pts@[t].table@[i]]
                0 <= t < linker::NUM_PERCPU_PTS && 0 <= i < 512 ==> r.percpu_pts@[t].table@[i].bits
                    == 0,
            forall|t: int, i: int|
                #![trigger r.phys_pdpts@[t].table@[i]]
                0 <= t < linker::NUM_PHYS_PDPTS && 0 <= i < 512 ==> r.phys_pdpts@[t].table@[i].bits
                    == 0,
    {
        let mut kern_pts: Vec<PT> = Vec::new();
        let mut i: usize = 0;
        while i < linker::NUM_KERN_PTS
            invariant
                i <= linker::NUM_KERN_PTS,
                kern_pts@.len() == i,
                forall|t: int| 0 <= t < i ==> (#[trigger] kern_pts@[t]).wf(),
                forall|t: int, k: int|
                    #![trigger kern_pts@[t].table@[k]]
                    0 <= t < i && 0 <= k < 512 ==> kern_pts@[t].table@[k].bits == 0,
            decreases linker::NUM_KERN_PTS - i,
        {
            kern_pts.push(PT::zero());
            i += 1;
        }
        let mut percpu_pds: Vec<PD> = Vec::new();
        let mut i: usize = 0;
        while i < linker::NUM_PERCPU_PDS
            invariant
                i <= linker::NUM_PERCPU_PDS,
                percpu_pds@.len() == i,
                forall|t: int| 0 <= t < i ==> (#[trigger] percpu_pds@[t]).wf(),
                forall|t: int, k: int|
                    #![trigger percpu_pds@[t].table@[k]]
                    0 <= t < i && 0 <= k < 512 ==> percpu_pds@[t].table@[k].bits == 0,
            decreases linker::NUM_PERCPU_PDS - i,
        {
            percpu_pds.push(PD::zero());
            i += 1;
        }
        let mut percpu_pts: Vec<PT> = Vec::new();
        let mut i: usize = 0;
        while i < linker::NUM_PERCPU_PTS
            invariant
                i <= linker::NUM_PERCPU_PTS,
                percpu_pts@.len() == i,
                forall|t: int| 0 <= t < i ==> (#[trigger] percpu_pts@[t]).wf(),
                forall|t: int, k: int|
                    #![trigger percpu_pts@[t].table@[k]]
                    0 <= t < i && 0 <= k < 512 ==> percpu_pts@[t].table@[k].bits == 0,
            decreases linker::NUM_PERCPU_PTS - i,
        {
            percpu_pts.push(PT::zero());
            i += 1;
        }
        let mut phys_pdpts: Vec<PDPT> = Vec::new();
        let mut i: usize = 0;
        while i < linker::NUM_PHYS_PDPTS
            invariant
                i <= linker::NUM_PHYS_PDPTS,
                phys_pdpts@.len() == i,
                forall|t: int| 0 <= t < i ==> (#[trigger] phys_pdpts@[t]).wf(),
                forall|t: int, k: int|
                    #![trigger phys_pdpts@[t].table@[k]]
                    0 <= t < i && 0 <= k < 512 ==> phys_pdpts@[t].table@[k].bits == 0,
            decreases linker::NUM_PHYS_PDPTS - i,
        {
            phys_pdpts.push(PDPT::zero());
            i += 1;
        }
        KernelTables {
            top: PML4::zero(),
            kernel_pdpt: PDPT::zero(),
            kern_pd: PD::zero(),
            kern_pts,
            kdev_pd: PD::zero(),
            kdev_pt: PT::zero(),
            percpu_pds,
            percpu_pts,
            phys_pdpts,
        }
    }

    /// Map the kernel window: the linked text range read-execute, read-only
    /// data read-only and execute-disabled, and data together with
    /// zero-initialised data read-write and execute-disabled, each with
    /// huge pages where a whole one fits and 4 KiB pages for the tail.
    ///
    /// What each pass writes, entry by entry, is [`map_range`]'s contract;
    /// this function strings the three passes over one descend into the
    /// kernel's middle-level table.
    #[verifier::rlimit(100)]
    #[verifier::spinoff_prover]
    pub fn map_kernel_window(&mut self, addrs: &TableAddrs, layout: &crate::linker::KernelLayout)
        requires
            old(self).wf(),
            addrs.wf(),
            layout.wf(),
        ensures
            final(self).wf(),
            final(self).top == old(self).top,
            final(self).kdev_pd == old(self).kdev_pd,
            final(self).kdev_pt == old(self).kdev_pt,
            final(self).percpu_pds == old(self).percpu_pds,
            final(self).percpu_pts == old(self).percpu_pts,
            final(self).phys_pdpts == old(self).phys_pdpts,
            final(self).kernel_pdpt.table@ == old(self).kernel_pdpt.table@.update(
                spec_pdpt_index(linker::VIRT_OFFSET) as int,
                PDPTE {
                    bits: spec_entry_bits(
                        (addrs.kern_pd - linker::VIRT_OFFSET) as u64,
                        spec_apply_policy(
                            old(self).kernel_pdpt.table@[spec_pdpt_index(
                                linker::VIRT_OFFSET,
                            ) as int].bits & ENTRY_FLAGS_MASK,
                            Flags::Enable(ENTRY_P | ENTRY_RW),
                        ),
                    ),
                },
            ),
            // The three section passes, each stated against the tables this
            // call started from: text read-execute, read-only data without
            // write or execute, data and zero-initialised data writable and
            // execute-disabled.
            section_mapped(
                old(self).kern_pd,
                final(self).kern_pd,
                old(self).kern_pts@,
                final(self).kern_pts@,
                addrs.kern_pts,
                layout.text_start,
                layout.text_end,
                false,
                false,
            ),
            section_mapped(
                old(self).kern_pd,
                final(self).kern_pd,
                old(self).kern_pts@,
                final(self).kern_pts@,
                addrs.kern_pts,
                layout.rodata_start,
                layout.rodata_end,
                false,
                true,
            ),
            section_mapped(
                old(self).kern_pd,
                final(self).kern_pd,
                old(self).kern_pts@,
                final(self).kern_pts@,
                addrs.kern_pts,
                layout.data_start,
                layout.bss_end,
                true,
                true,
            ),
            // Frame: a slot of the kernel middle-level table not holding any
            // section's chunk or tail keeps its entry, and so does every
            // lowest-level entry outside the three 4 KiB tails.
            forall|k: int|
                #![trigger final(self).kern_pd.table@[k]]
                0 <= k < 512 && !pd_slot_touched(
                    layout.text_start,
                    spec_page_end(layout.text_end),
                    spec_huge_end(layout.text_start, layout.text_end),
                    k,
                ) && !pd_slot_touched(
                    layout.rodata_start,
                    spec_page_end(layout.rodata_end),
                    spec_huge_end(layout.rodata_start, layout.rodata_end),
                    k,
                ) && !pd_slot_touched(
                    layout.data_start,
                    spec_page_end(layout.bss_end),
                    spec_huge_end(layout.data_start, layout.bss_end),
                    k,
                ) ==> final(self).kern_pd.table@[k] == old(self).kern_pd.table@[k],
            forall|t: int, j: int|
                #![trigger final(self).kern_pts@[t].table@[j]]
                0 <= t < linker::NUM_KERN_PTS && 0 <= j < 512 && !section_tail_page(
                    layout.text_start,
                    layout.text_end,
                    t,
                    j,
                ) && !section_tail_page(layout.rodata_start, layout.rodata_end, t, j)
                    && !section_tail_page(layout.data_start, layout.bss_end, t, j)
                    ==> final(self).kern_pts@[t].table@[j] == old(self).kern_pts@[t].table@[j],
    {
        let mapper = Mapper::new(linker::VIRT_OFFSET);
        let pdpt_mapper = PdptMapper { link_offset: linker::VIRT_OFFSET };
        let pd_mapper = pdpt_mapper.pd(
            &mut self.kernel_pdpt,
            pdpt_index(linker::VIRT_OFFSET),
            addrs.kern_pd,
            Flags::Enable(ENTRY_P | ENTRY_RW),
        );
        let pts_vbase = addrs.kern_pts;
        let ghost pd0 = self.kern_pd;
        let ghost pts0 = self.kern_pts@;
        map_range(
            &pd_mapper,
            &mut self.kern_pd,
            &mut self.kern_pts,
            pts_vbase,
            layout.text_start,
            layout.text_end,
            false,
            false,
        );
        let ghost pd1 = self.kern_pd;
        let ghost pts1 = self.kern_pts@;
        map_range(
            &pd_mapper,
            &mut self.kern_pd,
            &mut self.kern_pts,
            pts_vbase,
            layout.rodata_start,
            layout.rodata_end,
            false,
            true,
        );
        let ghost pd2 = self.kern_pd;
        let ghost pts2 = self.kern_pts@;
        map_range(
            &pd_mapper,
            &mut self.kern_pd,
            &mut self.kern_pts,
            pts_vbase,
            layout.data_start,
            layout.bss_end,
            true,
            true,
        );
        proof {
            let vo = linker::VIRT_OFFSET;
            let c: u64 = ENTRY_P | ENTRY_RW;
            let fm: u64 = ENTRY_FLAGS_MASK;
            let ts = layout.text_start;
            let te = layout.text_end;
            let rs = layout.rodata_start;
            let re = layout.rodata_end;
            let ds = layout.data_start;
            let de = layout.bss_end;
            let pdf = self.kern_pd;
            let ptsf = self.kern_pts@;
            lemma_link_constants();
            lemma_section_bounds(ts, te);
            lemma_section_bounds(rs, re);
            lemma_section_bounds(ds, de);

            // Text huge entries survive the later passes untouched.
            assert forall|v: u64|
                #![trigger window_pd_index(v, vo)]
                ts <= v < spec_huge_end(ts, te) && v % (MEGA_PAGE as u64)
                    == 0 implies pdf.table@[window_pd_index(v, vo)] == (PDE {
                bits: spec_entry_bits(
                    (v - vo) as u64,
                    spec_apply_policy(
                        pd0.table@[window_pd_index(v, vo)].bits & ENTRY_FLAGS_MASK,
                        Flags::Enable(spec_section_pd_flags(false, false)),
                    ),
                ),
            }) by {
                lemma_window_index_bridge(v, vo);
                let k = window_pd_index(v, vo);
                lemma_slot_untouched(rs, re, k);
                lemma_slot_untouched(ds, de, k);
                assert(pd2.table@[k] == pd1.table@[k]);
                assert(pdf.table@[k] == pd2.table@[k]);
            }
            // Read-only data huge entries: written onto the untouched slot.
            assert forall|v: u64|
                #![trigger window_pd_index(v, vo)]
                rs <= v < spec_huge_end(rs, re) && v % (MEGA_PAGE as u64)
                    == 0 implies pdf.table@[window_pd_index(v, vo)] == (PDE {
                bits: spec_entry_bits(
                    (v - vo) as u64,
                    spec_apply_policy(
                        pd0.table@[window_pd_index(v, vo)].bits & ENTRY_FLAGS_MASK,
                        Flags::Enable(spec_section_pd_flags(false, true)),
                    ),
                ),
            }) by {
                lemma_window_index_bridge(v, vo);
                let k = window_pd_index(v, vo);
                lemma_slot_untouched(ts, te, k);
                lemma_slot_untouched(ds, de, k);
                assert(pd1.table@[k] == pd0.table@[k]);
                assert(pdf.table@[k] == pd2.table@[k]);
            }
            // Data huge entries: both earlier passes stay below the chunk.
            assert forall|v: u64|
                #![trigger window_pd_index(v, vo)]
                ds <= v < spec_huge_end(ds, de) && v % (MEGA_PAGE as u64)
                    == 0 implies pdf.table@[window_pd_index(v, vo)] == (PDE {
                bits: spec_entry_bits(
                    (v - vo) as u64,
                    spec_apply_policy(
                        pd0.table@[window_pd_index(v, vo)].bits & ENTRY_FLAGS_MASK,
                        Flags::Enable(spec_section_pd_flags(true, true)),
                    ),
                ),
            }) by {
                lemma_window_index_bridge(v, vo);
                let k = window_pd_index(v, vo);
                lemma_slot_untouched(ts, te, k);
                lemma_slot_untouched(rs, re, k);
                assert(pd1.table@[k] == pd0.table@[k]);
                assert(pd2.table@[k] == pd1.table@[k]);
            }
            // Tail pages: each section's lowest-level entries are disjoint
            // from the other sections' tails, so they survive unchanged.
            assert forall|v: u64|
                #![trigger window_pt_index(v)]
                spec_huge_end(ts, te) <= v < spec_page_end(te) && v % (BASE_PAGE as u64)
                    == 0 implies ptsf[window_pd_index(v, vo)].table@[window_pt_index(v)] == (PTE {
                bits: spec_entry_bits(
                    (v - vo) as u64,
                    spec_apply_policy(
                        pts0[window_pd_index(v, vo)].table@[window_pt_index(v)].bits
                            & PTE_FLAGS_MASK,
                        Flags::Enable(spec_section_pt_flags(false, false)),
                    ),
                ),
            }) by {
                lemma_window_index_bridge(v, vo);
                let t = window_pd_index(v, vo);
                let j = window_pt_index(v);
                assert(vo + t * MEGA_PAGE + j * BASE_PAGE == v);
                assert(pts2[t].table@[j] == pts1[t].table@[j]);
                assert(ptsf[t].table@[j] == pts2[t].table@[j]);
            }
            assert forall|v: u64|
                #![trigger window_pt_index(v)]
                spec_huge_end(rs, re) <= v < spec_page_end(re) && v % (BASE_PAGE as u64)
                    == 0 implies ptsf[window_pd_index(v, vo)].table@[window_pt_index(v)] == (PTE {
                bits: spec_entry_bits(
                    (v - vo) as u64,
                    spec_apply_policy(
                        pts0[window_pd_index(v, vo)].table@[window_pt_index(v)].bits
                            & PTE_FLAGS_MASK,
                        Flags::Enable(spec_section_pt_flags(false, true)),
                    ),
                ),
            }) by {
                lemma_window_index_bridge(v, vo);
                let t = window_pd_index(v, vo);
                let j = window_pt_index(v);
                assert(vo + t * MEGA_PAGE + j * BASE_PAGE == v);
                assert(pts1[t].table@[j] == pts0[t].table@[j]);
                assert(ptsf[t].table@[j] == pts2[t].table@[j]);
            }
            assert forall|v: u64|
                #![trigger window_pt_index(v)]
                spec_huge_end(ds, de) <= v < spec_page_end(de) && v % (BASE_PAGE as u64)
                    == 0 implies ptsf[window_pd_index(v, vo)].table@[window_pt_index(v)] == (PTE {
                bits: spec_entry_bits(
                    (v - vo) as u64,
                    spec_apply_policy(
                        pts0[window_pd_index(v, vo)].table@[window_pt_index(v)].bits
                            & PTE_FLAGS_MASK,
                        Flags::Enable(spec_section_pt_flags(true, true)),
                    ),
                ),
            }) by {
                lemma_window_index_bridge(v, vo);
                let t = window_pd_index(v, vo);
                let j = window_pt_index(v);
                assert(vo + t * MEGA_PAGE + j * BASE_PAGE == v);
                assert(pts1[t].table@[j] == pts0[t].table@[j]);
                assert(pts2[t].table@[j] == pts1[t].table@[j]);
            }
            // Tail pointer slots: a later pass can rewrite a shared slot, but
            // it writes the same table address and re-enables the same flags,
            // so the word is stable.
            assert forall|v: u64|
                #![trigger window_pd_index(v, vo)]
                spec_huge_end(ts, te) <= v < spec_page_end(te) && v % (BASE_PAGE as u64)
                    == 0 implies pdf.table@[window_pd_index(v, vo)] == (PDE {
                bits: spec_entry_bits(
                    (pts_vbase + window_pd_index(v, vo) * BASE_PAGE - vo) as u64,
                    (pd0.table@[window_pd_index(v, vo)].bits & ENTRY_FLAGS_MASK) | (ENTRY_P
                        | ENTRY_RW),
                ),
            }) by {
                lemma_window_index_bridge(v, vo);
                let k = window_pd_index(v, vo);
                let addr_k = (pts_vbase + k * BASE_PAGE - vo) as u64;
                let o1 = (pd0.table@[k].bits & fm) | c;
                lemma_entry_flag_stable(addr_k, pd0.table@[k].bits);
                assert(pd1.table@[k].bits == (addr_k & ADDRESS_MASK) | o1);
                if pd_slot_touched(rs, spec_page_end(re), spec_huge_end(rs, re), k) {
                    if exists|v3: u64|
                        rs <= v3 < spec_page_end(re) && v3 < spec_huge_end(rs, re) && v3 % (
                        MEGA_PAGE as u64) == 0 && window_pd_index(v3, vo) == k {
                        let v3 = choose|v3: u64|
                            rs <= v3 < spec_page_end(re) && v3 < spec_huge_end(rs, re) && v3 % (
                            MEGA_PAGE as u64) == 0 && window_pd_index(v3, vo) == k;
                        lemma_window_index_bridge(v3, vo);
                        assert(false);
                    } else {
                        let v3 = choose|v3: u64|
                            spec_huge_end(rs, re) <= v3 < spec_page_end(re) && v3 % (
                            BASE_PAGE as u64) == 0 && window_pd_index(v3, vo) == k;
                        lemma_window_index_bridge(v3, vo);
                        assert(pd2.table@[k].bits == (addr_k & ADDRESS_MASK) | o1);
                    }
                } else {
                    assert(pd2.table@[k] == pd1.table@[k]);
                }
                if pd_slot_touched(ds, spec_page_end(de), spec_huge_end(ds, de), k) {
                    if exists|v3: u64|
                        ds <= v3 < spec_page_end(de) && v3 < spec_huge_end(ds, de) && v3 % (
                        MEGA_PAGE as u64) == 0 && window_pd_index(v3, vo) == k {
                        let v3 = choose|v3: u64|
                            ds <= v3 < spec_page_end(de) && v3 < spec_huge_end(ds, de) && v3 % (
                            MEGA_PAGE as u64) == 0 && window_pd_index(v3, vo) == k;
                        lemma_window_index_bridge(v3, vo);
                        assert(false);
                    } else {
                        let v3 = choose|v3: u64|
                            spec_huge_end(ds, de) <= v3 < spec_page_end(de) && v3 % (
                            BASE_PAGE as u64) == 0 && window_pd_index(v3, vo) == k;
                        lemma_window_index_bridge(v3, vo);
                        assert(pdf.table@[k].bits == (addr_k & ADDRESS_MASK) | o1);
                    }
                } else {
                    assert(pdf.table@[k] == pd2.table@[k]);
                }
            }
            assert forall|v: u64|
                #![trigger window_pd_index(v, vo)]
                spec_huge_end(rs, re) <= v < spec_page_end(re) && v % (BASE_PAGE as u64)
                    == 0 implies pdf.table@[window_pd_index(v, vo)] == (PDE {
                bits: spec_entry_bits(
                    (pts_vbase + window_pd_index(v, vo) * BASE_PAGE - vo) as u64,
                    (pd0.table@[window_pd_index(v, vo)].bits & ENTRY_FLAGS_MASK) | (ENTRY_P
                        | ENTRY_RW),
                ),
            }) by {
                lemma_window_index_bridge(v, vo);
                let k = window_pd_index(v, vo);
                let addr_k = (pts_vbase + k * BASE_PAGE - vo) as u64;
                let o1 = (pd0.table@[k].bits & fm) | c;
                lemma_entry_flag_stable(addr_k, pd0.table@[k].bits);
                if pd_slot_touched(ts, spec_page_end(te), spec_huge_end(ts, te), k) {
                    if exists|v3: u64|
                        ts <= v3 < spec_page_end(te) && v3 < spec_huge_end(ts, te) && v3 % (
                        MEGA_PAGE as u64) == 0 && window_pd_index(v3, vo) == k {
                        let v3 = choose|v3: u64|
                            ts <= v3 < spec_page_end(te) && v3 < spec_huge_end(ts, te) && v3 % (
                            MEGA_PAGE as u64) == 0 && window_pd_index(v3, vo) == k;
                        lemma_window_index_bridge(v3, vo);
                        assert(false);
                    } else {
                        let v3 = choose|v3: u64|
                            spec_huge_end(ts, te) <= v3 < spec_page_end(te) && v3 % (
                            BASE_PAGE as u64) == 0 && window_pd_index(v3, vo) == k;
                        lemma_window_index_bridge(v3, vo);
                        assert(pd1.table@[k].bits == (addr_k & ADDRESS_MASK) | o1);
                    }
                } else {
                    assert(pd1.table@[k] == pd0.table@[k]);
                }
                assert(pd2.table@[k].bits == (addr_k & ADDRESS_MASK) | o1);
                if pd_slot_touched(ds, spec_page_end(de), spec_huge_end(ds, de), k) {
                    if exists|v3: u64|
                        ds <= v3 < spec_page_end(de) && v3 < spec_huge_end(ds, de) && v3 % (
                        MEGA_PAGE as u64) == 0 && window_pd_index(v3, vo) == k {
                        let v3 = choose|v3: u64|
                            ds <= v3 < spec_page_end(de) && v3 < spec_huge_end(ds, de) && v3 % (
                            MEGA_PAGE as u64) == 0 && window_pd_index(v3, vo) == k;
                        lemma_window_index_bridge(v3, vo);
                        assert(false);
                    } else {
                        let v3 = choose|v3: u64|
                            spec_huge_end(ds, de) <= v3 < spec_page_end(de) && v3 % (
                            BASE_PAGE as u64) == 0 && window_pd_index(v3, vo) == k;
                        lemma_window_index_bridge(v3, vo);
                        assert(pdf.table@[k].bits == (addr_k & ADDRESS_MASK) | o1);
                    }
                } else {
                    assert(pdf.table@[k] == pd2.table@[k]);
                }
            }
            assert forall|v: u64|
                #![trigger window_pd_index(v, vo)]
                spec_huge_end(ds, de) <= v < spec_page_end(de) && v % (BASE_PAGE as u64)
                    == 0 implies pdf.table@[window_pd_index(v, vo)] == (PDE {
                bits: spec_entry_bits(
                    (pts_vbase + window_pd_index(v, vo) * BASE_PAGE - vo) as u64,
                    (pd0.table@[window_pd_index(v, vo)].bits & ENTRY_FLAGS_MASK) | (ENTRY_P
                        | ENTRY_RW),
                ),
            }) by {
                lemma_window_index_bridge(v, vo);
                let k = window_pd_index(v, vo);
                let addr_k = (pts_vbase + k * BASE_PAGE - vo) as u64;
                let o1 = (pd0.table@[k].bits & fm) | c;
                lemma_entry_flag_stable(addr_k, pd0.table@[k].bits);
                if pd_slot_touched(ts, spec_page_end(te), spec_huge_end(ts, te), k) {
                    if exists|v3: u64|
                        ts <= v3 < spec_page_end(te) && v3 < spec_huge_end(ts, te) && v3 % (
                        MEGA_PAGE as u64) == 0 && window_pd_index(v3, vo) == k {
                        let v3 = choose|v3: u64|
                            ts <= v3 < spec_page_end(te) && v3 < spec_huge_end(ts, te) && v3 % (
                            MEGA_PAGE as u64) == 0 && window_pd_index(v3, vo) == k;
                        lemma_window_index_bridge(v3, vo);
                        assert(false);
                    } else {
                        let v3 = choose|v3: u64|
                            spec_huge_end(ts, te) <= v3 < spec_page_end(te) && v3 % (
                            BASE_PAGE as u64) == 0 && window_pd_index(v3, vo) == k;
                        lemma_window_index_bridge(v3, vo);
                        assert(pd1.table@[k].bits == (addr_k & ADDRESS_MASK) | o1);
                    }
                } else {
                    assert(pd1.table@[k] == pd0.table@[k]);
                }
                if pd_slot_touched(rs, spec_page_end(re), spec_huge_end(rs, re), k) {
                    if exists|v3: u64|
                        rs <= v3 < spec_page_end(re) && v3 < spec_huge_end(rs, re) && v3 % (
                        MEGA_PAGE as u64) == 0 && window_pd_index(v3, vo) == k {
                        let v3 = choose|v3: u64|
                            rs <= v3 < spec_page_end(re) && v3 < spec_huge_end(rs, re) && v3 % (
                            MEGA_PAGE as u64) == 0 && window_pd_index(v3, vo) == k;
                        lemma_window_index_bridge(v3, vo);
                        assert(false);
                    } else {
                        let v3 = choose|v3: u64|
                            spec_huge_end(rs, re) <= v3 < spec_page_end(re) && v3 % (
                            BASE_PAGE as u64) == 0 && window_pd_index(v3, vo) == k;
                        lemma_window_index_bridge(v3, vo);
                        assert(pd2.table@[k].bits == (addr_k & ADDRESS_MASK) | o1);
                    }
                } else {
                    assert(pd2.table@[k] == pd1.table@[k]);
                }
                assert(pdf.table@[k].bits == (addr_k & ADDRESS_MASK) | o1);
            }
            assert(section_mapped(pd0, pdf, pts0, ptsf, pts_vbase, ts, te, false, false));
            assert(section_mapped(pd0, pdf, pts0, ptsf, pts_vbase, rs, re, false, true));
            assert(section_mapped(pd0, pdf, pts0, ptsf, pts_vbase, ds, de, true, true));
            // The combined frame conditions chain through the three passes.
            assert forall|k: int|
                #![trigger pdf.table@[k]]
                0 <= k < 512 && !pd_slot_touched(ts, spec_page_end(te), spec_huge_end(ts, te), k)
                    && !pd_slot_touched(rs, spec_page_end(re), spec_huge_end(rs, re), k)
                    && !pd_slot_touched(
                    ds,
                    spec_page_end(de),
                    spec_huge_end(ds, de),
                    k,
                ) implies pdf.table@[k] == pd0.table@[k] by {
                assert(pd1.table@[k] == pd0.table@[k]);
                assert(pd2.table@[k] == pd1.table@[k]);
            }
            assert forall|t: int, j: int|
                #![trigger ptsf[t].table@[j]]
                0 <= t < linker::NUM_KERN_PTS && 0 <= j < 512 && !section_tail_page(ts, te, t, j)
                    && !section_tail_page(rs, re, t, j) && !section_tail_page(
                    ds,
                    de,
                    t,
                    j,
                ) implies ptsf[t].table@[j] == pts0[t].table@[j] by {
                assert(pts1[t].table@[j] == pts0[t].table@[j]);
                assert(pts2[t].table@[j] == pts1[t].table@[j]);
            }
        }
    }

    /// Map all supported physical memory at the fixed high offset with
    /// 1 GiB pages, read-write and execute-disabled, as a direct-access
    /// alias.
    pub fn map_phys_window(&mut self, addrs: &TableAddrs)
        requires
            old(self).wf(),
            addrs.wf(),
        ensures
            final(self).wf(),
            final(self).kernel_pdpt == old(self).kernel_pdpt,
            final(self).kern_pd == old(self).kern_pd,
            final(self).kern_pts == old(self).kern_pts,
            final(self).kdev_pd == old(self).kdev_pd,
            final(self).kdev_pt == old(self).kdev_pt,
            final(self).percpu_pds == old(self).percpu_pds,
            final(self).percpu_pts == old(self).percpu_pts,
            final(self).top.table@ == old(self).top.table@.update(
                spec_pml4_index(linker::PHYS_OFFSET) as int,
                PML4E {
                    bits: spec_entry_bits(
                        (addrs.phys_pdpts - linker::VIRT_OFFSET) as u64,
                        spec_apply_policy(
                            old(self).top.table@[spec_pml4_index(linker::PHYS_OFFSET) as int].bits
                                & ENTRY_FLAGS_MASK,
                            Flags::Enable(ENTRY_P),
                        ),
                    ),
                },
            ),
            forall|y: int|
                #![trigger final(self).phys_pdpts@[0].table@[y]]
                0 <= y < 512 ==> final(self).phys_pdpts@[0].table@[y] == (PDPTE {
                    bits: spec_entry_bits(
                        (y * GIGA_PAGE) as u64,
                        spec_apply_policy(
                            old(self).phys_pdpts@[0].table@[y].bits & ENTRY_FLAGS_MASK,
                            Flags::Enable(ENTRY_P | ENTRY_PS | ENTRY_RW | ENTRY_XD),
                        ),
                    ),
                }),
    {
        let mapper = Mapper::new(linker::VIRT_OFFSET);
        let mut pdpt = self.phys_pdpts.remove(0);
        let ghost pdpt0 = pdpt.table@;
        let pdpt_mapper = mapper.pdpt(
            &mut self.top,
            pml4_index(linker::PHYS_OFFSET),
            addrs.phys_pdpts,
            Flags::Enable(ENTRY_P),
        );
        let mut y: usize = 0;
        while y < 512
            invariant
                y <= 512,
                pdpt.wf(),
                forall|j: int|
                    #![trigger pdpt.table@[j]]
                    y <= j < 512 ==> pdpt.table@[j] == pdpt0[j],
                forall|j: int|
                    #![trigger pdpt.table@[j]]
                    0 <= j < y ==> pdpt.table@[j] == (PDPTE {
                        bits: spec_entry_bits(
                            (j * GIGA_PAGE) as u64,
                            spec_apply_policy(
                                pdpt0[j].bits & ENTRY_FLAGS_MASK,
                                Flags::Enable(ENTRY_P | ENTRY_PS | ENTRY_RW | ENTRY_XD),
                            ),
                        ),
                    }),
            decreases 512 - y,
        {
            proof {
                vstd::arithmetic::div_mod::lemma_mod_multiples_basic(y as int, GIGA_PAGE as int);
                assert(y as int * (GIGA_PAGE as int) <= 511 * GIGA_PAGE) by (nonlinear_arith)
                    requires
                        0 <= y < 512,
                ;
            }
            pdpt_mapper.map(&mut pdpt, y, (y as u64) * (GIGA_PAGE as u64), Flags::Enable(
                ENTRY_P | ENTRY_PS | ENTRY_RW | ENTRY_XD,
            ));
            y += 1;
        }
        self.phys_pdpts.insert(0, pdpt);
        proof {
            assert(final(self).phys_pdpts@ =~= old(self).phys_pdpts@.update(0, pdpt));
        }
    }
}

/// The virtual addresses of one core's private block: the start of its
/// storage and its guarded stack range.
#[derive(Debug, Clone, Copy, PartialEq, Eq, Structural)]
pub struct PerCpuInfo {
    /// The virtual start address of the per-processor storage.
    pub storage: u64,
    /// The stack's byte range (virtual).
    pub stack: Region,
}

impl KernelTables {
    /// Initialise the kernel page tables: point the top-level slot of the
    /// kernel half at the kernel's middle-high table, then map the kernel
    /// window (see [`KernelTables::map_kernel_window`]) and the
    /// physical-memory window (see [`KernelTables::map_phys_window`]).
    ///
    /// It does not activate the tables.
    pub fn init(&mut self, addrs: &TableAddrs, layout: &crate::linker::KernelLayout)
        requires
            old(self).wf(),
            addrs.wf(),
            layout.wf(),
        ensures
            final(self).wf(),
            final(self).kdev_pd == old(self).kdev_pd,
            final(self).kdev_pt == old(self).kdev_pt,
            final(self).percpu_pds == old(self).percpu_pds,
            final(self).percpu_pts == old(self).percpu_pts,
            // The top-level table holds exactly two new words: the kernel
            // half and the physical window.
            final(self).top.table@ == old(self).top.table@.update(
                spec_pml4_index(linker::KERNEL_START) as int,
                PML4E {
                    bits: spec_entry_bits(
                        (addrs.kernel_pdpt - linker::VIRT_OFFSET) as u64,
                        ENTRY_P | ENTRY_RW,
                    ),
                },
            ).update(
                spec_pml4_index(linker::PHYS_OFFSET) as int,
                PML4E {
                    bits: spec_entry_bits(
                        (addrs.phys_pdpts - linker::VIRT_OFFSET) as u64,
                        spec_apply_policy(
                            old(self).top.table@[spec_pml4_index(linker::PHYS_OFFSET) as int].bits
                                & ENTRY_FLAGS_MASK,
                            Flags::Enable(ENTRY_P),
                        ),
                    ),
                },
            ),
            final(self).top.table@[spec_pml4_index(linker::KERNEL_START) as int] == (PML4E {
                bits: spec_entry_bits(
                    (addrs.kernel_pdpt - linker::VIRT_OFFSET) as u64,
                    ENTRY_P | ENTRY_RW,
                ),
            }),
            // The kernel window: its middle-high slot descends into the
            // kernel's middle-level table, and the three sections are mapped
            // as map_kernel_window states.
            final(self).kernel_pdpt.table@ == old(self).kernel_pdpt.table@.update(
                spec_pdpt_index(linker::VIRT_OFFSET) as int,
                PDPTE {
                    bits: spec_entry_bits(
                        (addrs.kern_pd - linker::VIRT_OFFSET) as u64,
                        spec_apply_policy(
                            old(self).kernel_pdpt.table@[spec_pdpt_index(
                                linker::VIRT_OFFSET,
                            ) as int].bits & ENTRY_FLAGS_MASK,
                            Flags::Enable(ENTRY_P | ENTRY_RW),
                        ),
                    ),
                },
            ),
            section_mapped(
                old(self).kern_pd,
                final(self).kern_pd,
                old(self).kern_pts@,
                final(self).kern_pts@,
                addrs.kern_pts,
                layout.text_start,
                layout.text_end,
                false,
                false,
            ),
            section_mapped(
                old(self).kern_pd,
                final(self).kern_pd,
                old(self).kern_pts@,
                final(self).kern_pts@,
                addrs.kern_pts,
                layout.rodata_start,
                layout.rodata_end,
                false,
                true,
            ),
            section_mapped(
                old(self).kern_pd,
                final(self).kern_pd,
                old(self).kern_pts@,
                final(self).kern_pts@,
                addrs.kern_pts,
                layout.data_start,
                layout.bss_end,
                true,
                true,
            ),
            // The physical window: every slot of its middle-high table maps
            // one whole 1 GiB page, writable and execute-disabled.
            forall|y: int|
                #![trigger final(self).phys_pdpts@[0].table@[y]]
                0 <= y < 512 ==> final(self).phys_pdpts@[0].table@[y] == (PDPTE {
                    bits: spec_entry_bits(
                        (y * GIGA_PAGE) as u64,
                        spec_apply_policy(
                            old(self).phys_pdpts@[0].table@[y].bits & ENTRY_FLAGS_MASK,
                            Flags::Enable(ENTRY_P | ENTRY_PS | ENTRY_RW | ENTRY_XD),
                        ),
                    ),
                }),
    {
        let mapper = Mapper::new(linker::VIRT_OFFSET);
        let _kernel_half = mapper.pdpt(
            &mut self.top,
            pml4_index(linker::KERNEL_START),
            addrs.kernel_pdpt,
            Flags::Assign(ENTRY_P | ENTRY_RW),
        );
        let ghost top1 = self.top.table@;
        self.map_kernel_window(addrs, layout);
        self.map_phys_window(addrs);
        proof {
            crate::mm::paging::lemma_index_bound(linker::KERNEL_START);
            crate::mm::paging::lemma_index_bound(linker::PHYS_OFFSET);
            assert((0xffffffff81000000u64 >> 39) & 0x1ff != (0xffff800000000000u64 >> 39) & 0x1ff)
                by (bit_vector);
            assert(spec_pml4_index(linker::KERNEL_START) != spec_pml4_index(linker::PHYS_OFFSET));
        }
    }

    /// The physical address of the top-level table, for loading into the
    /// translation root register.
    pub fn kernel_top(&self, addrs: &TableAddrs) -> (r: u64)
        requires
            addrs.wf(),
        ensures
            r == addrs.top - linker::VIRT_OFFSET,
    {
        addrs.top - linker::VIRT_OFFSET
    }

    /// Map the local interrupt controller's register page, and the
    /// discovered I/O controller's register page behind it, into the fixed
    /// device window: read-write, cache-disabled and write-through, as
    /// memory-mapped registers demand.
    pub fn map_apic(&mut self, addrs: &TableAddrs, local_apic_address: u64, io_apics: &Vec<u32>)
        requires
            old(self).wf(),
            addrs.wf(),
            local_apic_address % (BASE_PAGE as u64) == 0,
            forall|i: int|
                0 <= i < io_apics@.len() ==> (#[trigger] io_apics@[i]) as u64 % (BASE_PAGE as u64)
                    == 0,
            io_apics@.len() <= linker::MAX_IOAPICS,
        ensures
            final(self).wf(),
            final(self).kern_pd == old(self).kern_pd,
            final(self).kern_pts == old(self).kern_pts,
            final(self).percpu_pds == old(self).percpu_pds,
            final(self).percpu_pts == old(self).percpu_pts,
            final(self).phys_pdpts == old(self).phys_pdpts,
            // The descend path: the kernel half's top-level slot, the device
            // window's middle-high slot, and its middle-level slot, each
            // enabling present and writable over whatever the slot held.
            final(self).top.table@ == old(self).top.table@.update(
                spec_pml4_index(linker::LOCAL_APIC_ADDRESS) as int,
                PML4E {
                    bits: spec_entry_bits(
                        (addrs.kernel_pdpt - linker::VIRT_OFFSET) as u64,
                        spec_apply_policy(
                            old(self).top.table@[spec_pml4_index(
                                linker::LOCAL_APIC_ADDRESS,
                            ) as int].bits & ENTRY_FLAGS_MASK,
                            Flags::Enable(ENTRY_P | ENTRY_RW),
                        ),
                    ),
                },
            ),
            final(self).kernel_pdpt.table@ == old(self).kernel_pdpt.table@.update(
                spec_pdpt_index(linker::LOCAL_APIC_ADDRESS) as int,
                PDPTE {
                    bits: spec_entry_bits(
                        (addrs.kdev_pd - linker::VIRT_OFFSET) as u64,
                        spec_apply_policy(
                            old(self).kernel_pdpt.table@[spec_pdpt_index(
                                linker::LOCAL_APIC_ADDRESS,
                            ) as int].bits & ENTRY_FLAGS_MASK,
                            Flags::Enable(ENTRY_P | ENTRY_RW),
                        ),
                    ),
                },
            ),
            final(self).kdev_pd.table@ == old(self).kdev_pd.table@.update(
                spec_pd_index(linker::LOCAL_APIC_ADDRESS) as int,
                PDE {
                    bits: spec_entry_bits(
                        (addrs.kdev_pt - linker::VIRT_OFFSET) as u64,
                        spec_apply_policy(
                            old(self).kdev_pd.table@[spec_pd_index(
                                linker::LOCAL_APIC_ADDRESS,
                            ) as int].bits & ENTRY_FLAGS_MASK,
                            Flags::Enable(ENTRY_P | ENTRY_RW),
                        ),
                    ),
                },
            ),
            final(self).kdev_pt.table@[spec_pt_index(linker::LOCAL_APIC_ADDRESS) as int] == (PTE {
                bits: spec_entry_bits(
                    local_apic_address,
                    spec_apply_policy(
                        old(self).kdev_pt.table@[spec_pt_index(
                            linker::LOCAL_APIC_ADDRESS,
                        ) as int].bits & PTE_FLAGS_MASK,
                        Flags::Enable(ENTRY_P | ENTRY_PCD | ENTRY_PWT | ENTRY_RW),
                    ),
                ),
            }),
            io_apics@.len() > 0 ==> final(self).kdev_pt.table@[spec_pt_index(
                linker::IO_APIC_OFFSET,
            ) as int] == (PTE {
                bits: spec_entry_bits(
                    io_apics@[0] as u64,
                    spec_apply_policy(
                        old(self).kdev_pt.table@[spec_pt_index(linker::IO_APIC_OFFSET) as int].bits
                            & PTE_FLAGS_MASK,
                        Flags::Enable(ENTRY_P | ENTRY_PCD | ENTRY_PWT | ENTRY_RW),
                    ),
                ),
            }),
    {
        proof {
            lemma_link_constants();
            lemma_window_index_bridge(linker::LOCAL_APIC_ADDRESS, linker::KDEV_OFFSET);
            lemma_window_index_bridge(linker::IO_APIC_OFFSET, linker::KDEV_OFFSET);
        }
        let mapper = Mapper::new(linker::VIRT_OFFSET);
        let pdpt_mapper = mapper.pdpt(
            &mut self.top,
            pml4_index(linker::LOCAL_APIC_ADDRESS),
            addrs.kernel_pdpt,
            Flags::Enable(ENTRY_P | ENTRY_RW),
        );
        let pd_mapper = pdpt_mapper.pd(
            &mut self.kernel_pdpt,
            pdpt_index(linker::LOCAL_APIC_ADDRESS),
            addrs.kdev_pd,
            Flags::Enable(ENTRY_P | ENTRY_RW),
        );
        let pt_mapper = pd_mapper.pt(
            &mut self.kdev_pd,
            pd_index(linker::LOCAL_APIC_ADDRESS),
            addrs.kdev_pt,
            Flags::Enable(ENTRY_P | ENTRY_RW),
        );
        pt_mapper.map(
            &mut self.kdev_pt,
            pt_index(linker::LOCAL_APIC_ADDRESS),
            local_apic_address,
            Flags::Enable(ENTRY_P | ENTRY_PCD | ENTRY_PWT | ENTRY_RW),
        );
        if io_apics.len() > 0 {
            let io = io_apics[0];
            pt_mapper.map(
                &mut self.kdev_pt,
                pt_index(linker::IO_APIC_OFFSET),
                io as u64,
                Flags::Enable(ENTRY_P | ENTRY_PCD | ENTRY_PWT | ENTRY_RW),
            );
        }
    }
}

/// The virtual size of one core's private block: its storage frames, a
/// guard hole, its stack frames, and another guard hole.
pub open spec fn spec_percpu_stride(fpb: int, fps: int) -> int {
    fpb * BASE_PAGE + linker::STACK_GUARD_SIZE + fps * BASE_PAGE + linker::STACK_GUARD_SIZE
}

/// `v` is a mapped page of the per-processor area: a storage or stack page
/// of one of the first `num` blocks.  The two guard holes of each block are
/// left out, so accessing them faults.
pub open spec fn spec_percpu_page(v: u64, num: int, fpb: int) -> bool {
    let stride = spec_percpu_stride(fpb, 4);
    let d = v - linker::PERCPU_OFFSET;
    &&& v >= linker::PERCPU_OFFSET
    &&& d / stride < num
    &&& d % (BASE_PAGE as int) == 0
    &&& (d % stride < fpb * BASE_PAGE || fpb * BASE_PAGE + linker::STACK_GUARD_SIZE <= d % stride
        < fpb * BASE_PAGE + linker::STACK_GUARD_SIZE + 4 * BASE_PAGE)
}

/// The page at `v` is installed in the per-processor tables, present,
/// writable and execute-disabled, backed by exactly the frame `f`: a
/// page-aligned address above the low-memory boundary that the allocator
/// handed out between the `pre` and `post` states.
pub open spec fn percpu_page_backed(
    pre: KernelTables,
    post: KernelTables,
    premem: Memory,
    postmem: Memory,
    v: u64,
    f: u64,
) -> bool {
    &&& post.percpu_pts@[window_pd_index(v, linker::PERCPU_OFFSET)].table@[window_pt_index(v)]
        == (PTE {
        bits: spec_entry_bits(
            f,
            spec_apply_policy(
                pre.percpu_pts@[window_pd_index(v, linker::PERCPU_OFFSET)].table@[window_pt_index(
                    v,
                )].bits & PTE_FLAGS_MASK,
                Flags::Enable(ENTRY_P | ENTRY_RW | ENTRY_XD),
            ),
        ),
    })
    &&& f % (BASE_PAGE as u64) == 0
    &&& f >= crate::mm::memory::LOWERMEM_END
    &&& !premem.allocated().contains(f)
    &&& postmem.allocated().contains(f)
}

/// The page at `v` is installed in the per-processor tables, backed by some
/// freshly drawn frame.
pub open spec fn percpu_page_installed(
    pre: KernelTables,
    post: KernelTables,
    premem: Memory,
    postmem: Memory,
    v: u64,
) -> bool {
    exists|f: u64| #[trigger] percpu_page_backed(pre, post, premem, postmem, v, f)
}

/// A page of the per-processor area is page-aligned and lies inside the
/// window the per-processor tables cover.
proof fn lemma_percpu_page_bounds(v: u64, num: int, fpb: int)
    requires
        spec_percpu_page(v, num, fpb),
        1 <= num <= linker::MAX_CPUS,
        1 <= fpb <= 0x1000,
    ensures
        v % (BASE_PAGE as u64) == 0,
        v - linker::PERCPU_OFFSET < linker::NUM_PERCPU_PTS * MEGA_PAGE,
        v - linker::PERCPU_OFFSET < num * spec_percpu_stride(fpb, 4),
        0 <= window_pd_index(v, linker::PERCPU_OFFSET) < linker::NUM_PERCPU_PTS,
        0 <= window_pt_index(v) < 512,
{
    let stride = spec_percpu_stride(fpb, 4);
    let d = v - linker::PERCPU_OFFSET;
    assert(0x1000 <= stride <= 0x1006000) by (nonlinear_arith)
        requires
            stride == fpb * 0x1000 + 0x1000 + 4 * 0x1000 + 0x1000,
            1 <= fpb <= 0x1000,
    ;
    vstd::arithmetic::div_mod::lemma_fundamental_div_mod(d, stride);
    vstd::arithmetic::div_mod::lemma_mod_bound(d, stride);
    assert(d < num * stride && num * stride <= 16 * 0x1006000) by (nonlinear_arith)
        requires
            d == stride * (d / stride) + d % stride,
            d / stride <= num - 1,
            d % stride < stride,
            0 < stride <= 0x1006000,
            1 <= num <= 16,
    ;
    assert(0xffff_ff80_0000_0000u64 % 0x1000u64 == 0) by (bit_vector);
    vstd::arithmetic::div_mod::lemma_add_mod_noop(
        linker::PERCPU_OFFSET as int,
        d,
        BASE_PAGE as int,
    );
    vstd::arithmetic::div_mod::lemma_small_mod(0, BASE_PAGE as nat);
    vstd::arithmetic::div_mod::lemma_fundamental_div_mod(d, MEGA_PAGE as int);
    vstd::arithmetic::div_mod::lemma_mod_bound(d, MEGA_PAGE as int);
    assert(0 <= d / (MEGA_PAGE as int) < linker::NUM_PERCPU_PTS) by (nonlinear_arith)
        requires
            d == (MEGA_PAGE as int) * (d / (MEGA_PAGE as int)) + d % (MEGA_PAGE as int),
            0 <= d % (MEGA_PAGE as int) < (MEGA_PAGE as int),
            0 <= d < linker::NUM_PERCPU_PTS * (MEGA_PAGE as int),
            MEGA_PAGE as int > 0,
    ;
    lemma_link_constants();
    lemma_window_index_bridge(v, linker::PERCPU_OFFSET);
}

/// The page `off` bytes into core `c`'s block is one of the mapped
/// per-processor pages.
proof fn lemma_percpu_page_at(c: int, off: int, num: int, fpb: int, v: u64)
    requires
        1 <= num <= linker::MAX_CPUS,
        1 <= fpb <= 0x1000,
        0 <= c < num,
        0 <= off < spec_percpu_stride(fpb, 4),
        off % (BASE_PAGE as int) == 0,
        off < fpb * BASE_PAGE || fpb * BASE_PAGE + linker::STACK_GUARD_SIZE <= off < fpb
            * BASE_PAGE + linker::STACK_GUARD_SIZE + 4 * BASE_PAGE,
        v == linker::PERCPU_OFFSET + c * spec_percpu_stride(fpb, 4) + off,
    ensures
        spec_percpu_page(v, num, fpb),
{
    let stride = spec_percpu_stride(fpb, 4);
    let d = v - linker::PERCPU_OFFSET;
    assert(c * stride == stride * c && stride > 0 && c * stride >= 0) by (nonlinear_arith)
        requires
            stride == fpb * 0x1000 + 0x1000 + 4 * 0x1000 + 0x1000,
            1 <= fpb,
            0 <= c,
    ;
    vstd::arithmetic::div_mod::lemma_fundamental_div_mod_converse(d, stride, c, off);
    // The offset within the block is page-aligned, and so is the block
    // start, the stride being a whole number of pages.
    vstd::arithmetic::div_mod::lemma_mod_multiples_basic(fpb, BASE_PAGE as int);
    assert(stride % (BASE_PAGE as int) == 0) by (nonlinear_arith)
        requires
            stride == fpb * 0x1000 + 0x1000 + 4 * 0x1000 + 0x1000,
            (fpb * 0x1000) % 0x1000 == 0,
    ;
    vstd::arithmetic::div_mod::lemma_fundamental_div_mod(stride, BASE_PAGE as int);
    assert(c * stride == (BASE_PAGE as int) * (c * (stride / (BASE_PAGE as int))))
        by (nonlinear_arith)
        requires
            stride == (BASE_PAGE as int) * (stride / (BASE_PAGE as int)),
    ;
    vstd::arithmetic::div_mod::lemma_mod_multiples_vanish(
        c * (stride / (BASE_PAGE as int)),
        off,
        BASE_PAGE as int,
    );
}

/// The guard holes of a block hold no mapped page.
proof fn lemma_percpu_guard_hole(c: int, off: int, num: int, fpb: int, v: u64)
    requires
        1 <= num <= linker::MAX_CPUS,
        1 <= fpb <= 0x1000,
        0 <= c < num,
        fpb * BASE_PAGE <= off < fpb * BASE_PAGE + linker::STACK_GUARD_SIZE || fpb * BASE_PAGE
            + linker::STACK_GUARD_SIZE + 4 * BASE_PAGE <= off < spec_percpu_stride(fpb, 4),
        v == linker::PERCPU_OFFSET + c * spec_percpu_stride(fpb, 4) + off,
    ensures
        !spec_percpu_page(v, num, fpb),
{
    let stride = spec_percpu_stride(fpb, 4);
    let d = v - linker::PERCPU_OFFSET;
    assert(c * stride == stride * c && stride > 0 && c * stride >= 0) by (nonlinear_arith)
        requires
            stride == fpb * 0x1000 + 0x1000 + 4 * 0x1000 + 0x1000,
            1 <= fpb,
            0 <= c,
    ;
    vstd::arithmetic::div_mod::lemma_fundamental_div_mod_converse(d, stride, c, off);
}

/// Two distinct pages of the per-processor window land in distinct table
/// entries.
proof fn lemma_percpu_pair_injective(v1: u64, v2: u64)
    requires
        v1 % (BASE_PAGE as u64) == 0,
        v2 % (BASE_PAGE as u64) == 0,
        linker::PERCPU_OFFSET <= v1,
        linker::PERCPU_OFFSET <= v2,
        v1 - linker::PERCPU_OFFSET < linker::NUM_PERCPU_PTS * MEGA_PAGE,
        v2 - linker::PERCPU_OFFSET < linker::NUM_PERCPU_PTS * MEGA_PAGE,
        v1 != v2,
    ensures
        window_pd_index(v1, linker::PERCPU_OFFSET) != window_pd_index(v2, linker::PERCPU_OFFSET)
            || window_pt_index(v1) != window_pt_index(v2),
{
    lemma_link_constants();
    lemma_window_index_bridge(v1, linker::PERCPU_OFFSET);
    lemma_window_index_bridge(v2, linker::PERCPU_OFFSET);
}

impl KernelTables {
    /// Map one 4 KiB page of the per-processor window to the given frame:
    /// read-write, execute-disabled.
    fn map_percpu_page(&mut self, addrs: &TableAddrs, virt: u64, frame: u64)
        requires
            old(self).wf(),
            addrs.wf(),
            frame % (BASE_PAGE as u64) == 0,
            virt % (BASE_PAGE as u64) == 0,
            linker::PERCPU_OFFSET <= virt,
            virt - linker::PERCPU_OFFSET < linker::NUM_PERCPU_PTS * MEGA_PAGE,
        ensures
            final(self).wf(),
            final(self).kern_pd == old(self).kern_pd,
            final(self).kern_pts == old(self).kern_pts,
            final(self).kdev_pd == old(self).kdev_pd,
            final(self).kdev_pt == old(self).kdev_pt,
            final(self).phys_pdpts == old(self).phys_pdpts,
            // The page itself: present, writable, execute-disabled, backed
            // by exactly the given frame.
            final(self).percpu_pts@[window_pd_index(
                virt,
                linker::PERCPU_OFFSET,
            )].table@[window_pt_index(virt)] == (PTE {
                bits: spec_entry_bits(
                    frame,
                    spec_apply_policy(
                        old(self).percpu_pts@[window_pd_index(
                            virt,
                            linker::PERCPU_OFFSET,
                        )].table@[window_pt_index(virt)].bits & PTE_FLAGS_MASK,
                        Flags::Enable(ENTRY_P | ENTRY_RW | ENTRY_XD),
                    ),
                ),
            }),
            // Frame: every other per-processor lowest-level entry is kept.
            forall|t: int, j: int|
                #![trigger final(self).percpu_pts@[t].table@[j]]
                0 <= t < linker::NUM_PERCPU_PTS && 0 <= j < 512 && !(t == window_pd_index(
                    virt,
                    linker::PERCPU_OFFSET,
                ) && j == window_pt_index(virt)) ==> final(self).percpu_pts@[t].table@[j] == old(
                    self,
                ).percpu_pts@[t].table@[j],
    {
        proof {
            lemma_link_constants();
            lemma_window_index_bridge(virt, linker::PERCPU_OFFSET);
        }
        let mapper = Mapper::new(linker::VIRT_OFFSET);
        let pdpt_mapper = mapper.pdpt(
            &mut self.top,
            pml4_index(virt),
            addrs.kernel_pdpt,
            Flags::Enable(ENTRY_P | ENTRY_RW),
        );
        let mut pd = self.percpu_pds.remove(0);
        let pd_mapper = pdpt_mapper.pd(
            &mut self.kernel_pdpt,
            pdpt_index(virt),
            addrs.percpu_pds,
            Flags::Enable(ENTRY_P | ENTRY_RW),
        );
        let pt_i = pd_index(virt);
        proof {
            let d = virt - linker::PERCPU_OFFSET;
            vstd::arithmetic::div_mod::lemma_fundamental_div_mod(d as int, MEGA_PAGE as int);
            vstd::arithmetic::div_mod::lemma_mod_bound(d as int, MEGA_PAGE as int);
            assert(window_pd_index(virt, linker::PERCPU_OFFSET) < linker::NUM_PERCPU_PTS)
                by (nonlinear_arith)
                requires
                    (MEGA_PAGE as int) * window_pd_index(virt, linker::PERCPU_OFFSET) <= virt
                        - linker::PERCPU_OFFSET,
                    virt - linker::PERCPU_OFFSET < linker::NUM_PERCPU_PTS * (MEGA_PAGE as int),
                    MEGA_PAGE as int > 0,
                    window_pd_index(virt, linker::PERCPU_OFFSET) == (virt
                        - linker::PERCPU_OFFSET) / (MEGA_PAGE as int),
            ;
            vstd::arithmetic::div_mod::lemma_mod_multiples_basic(pt_i as int, BASE_PAGE as int);
            crate::mm::paging::lemma_multiple_props(
                addrs.percpu_pts as int,
                pt_i as int * BASE_PAGE,
                BASE_PAGE as int,
            );
        }
        let mut pt = self.percpu_pts.remove(pt_i);
        let pt_mapper = pd_mapper.pt(
            &mut pd,
            pt_i,
            addrs.percpu_pts + (pt_i as u64) * (BASE_PAGE as u64),
            Flags::Enable(ENTRY_P | ENTRY_RW),
        );
        pt_mapper.map(&mut pt, pt_index(virt), frame, Flags::Enable(ENTRY_P | ENTRY_RW | ENTRY_XD));
        self.percpu_pts.insert(pt_i, pt);
        self.percpu_pds.insert(0, pd);
        proof {
            assert(self.percpu_pts@ =~= old(self).percpu_pts@.update(pt_i as int, pt));
            assert(self.percpu_pds@ =~= old(self).percpu_pds@.update(0, pd));
        }
    }

    /// Carve and map the per-processor regions: for each detected core in
    /// turn, a contiguous storage block, a guard hole, a stack, and another
    /// guard hole, each mapped page consuming exactly one frame from the
    /// allocator.
    ///
    /// Copying the storage template into every block and zeroing the stacks
    /// happens through the physical-memory window once the tables are
    /// active.
    #[verifier::rlimit(100)]
    #[verifier::spinoff_prover]
    pub fn allocate_percpus(
        &mut self,
        addrs: &TableAddrs,
        memory: &mut Memory,
        num: usize,
        block_size: usize,
    ) -> (r: Vec<PerCpuInfo>)
        requires
            old(self).wf(),
            addrs.wf(),
            old(memory).wf(),
            1 <= num <= linker::MAX_CPUS,
            0 < block_size <= linker::KERNEL_PHYS_START,
            old(memory).free_bytes() >= num * ((crate::mm::paging::spec_align_up(
                block_size as int,
                BASE_PAGE as int,
            ) / (BASE_PAGE as int) + 4) * BASE_PAGE),
        ensures
            final(self).wf(),
            final(memory).wf(),
            final(memory).kernel_region() == old(memory).kernel_region(),
            r@.len() == num,
            final(memory).free_bytes() == old(memory).free_bytes() - num * ((
            crate::mm::paging::spec_align_up(block_size as int, BASE_PAGE as int) / (
            BASE_PAGE as int) + 4) * BASE_PAGE),
            forall|i: int|
                #![trigger r@[i]]
                0 <= i < num ==> {
                    let fpb = crate::mm::paging::spec_align_up(block_size as int, BASE_PAGE as int)
                        / (BASE_PAGE as int);
                    &&& r@[i].storage == linker::PERCPU_OFFSET + i * spec_percpu_stride(fpb, 4)
                    &&& r@[i].stack.base == r@[i].storage + fpb * BASE_PAGE
                        + linker::STACK_GUARD_SIZE
                    &&& r@[i].stack.length == linker::STACK_SIZE
                },
            final(self).kern_pd == old(self).kern_pd,
            final(self).kern_pts == old(self).kern_pts,
            final(self).kdev_pd == old(self).kdev_pd,
            final(self).kdev_pt == old(self).kdev_pt,
            final(self).phys_pdpts == old(self).phys_pdpts,
            old(memory).allocated().subset_of(final(memory).allocated()),
            // Every storage and stack page of every block is mapped present,
            // writable and execute-disabled, each onto its own frame drawn
            // from the allocator; the guard holes stay unmapped.
            forall|v: u64|
                #![trigger spec_percpu_page(
                    v,
                    num as int,
                    crate::mm::paging::spec_align_up(block_size as int, BASE_PAGE as int) / (
                    BASE_PAGE as int),
                )]
                spec_percpu_page(
                    v,
                    num as int,
                    crate::mm::paging::spec_align_up(block_size as int, BASE_PAGE as int) / (
                    BASE_PAGE as int),
                ) ==> percpu_page_installed(
                    *old(self),
                    *final(self),
                    *old(memory),
                    *final(memory),
                    v,
                ),
    {
        proof {
            crate::mm::paging::lemma_pow2_sizes();
        }
        let frames_per_block = crate::mm::paging::num_tables::<BASE_PAGE>(block_size);
        let frames_per_stack = crate::mm::paging::num_tables::<BASE_PAGE>(linker::STACK_SIZE);
        let ghost fpb = frames_per_block as int;
        let ghost stride = spec_percpu_stride(fpb, 4);
        let ghost page_cost = (fpb + 4) * (BASE_PAGE as int);
        proof {
            crate::mm::paging::lemma_align_down_multiple(
                block_size + BASE_PAGE - 1,
                BASE_PAGE as int,
            );
            assert(1 <= frames_per_block <= 0x1000) by (nonlinear_arith)
                requires
                    frames_per_block == crate::mm::paging::spec_align_up(
                        block_size as int,
                        BASE_PAGE as int,
                    ) / (BASE_PAGE as int),
                    crate::mm::paging::spec_align_up(block_size as int, BASE_PAGE as int) % (
                    BASE_PAGE as int) == 0,
                    0 < crate::mm::paging::spec_align_up(block_size as int, BASE_PAGE as int)
                        <= 0x1000000,
                    BASE_PAGE == 0x1000,
            ;
            assert(frames_per_stack == 4);
            assert(stride == fpb * BASE_PAGE + 4 * BASE_PAGE + 2 * linker::STACK_GUARD_SIZE
                && stride <= 0x1006000 && stride % (BASE_PAGE as int) == 0 && page_cost == fpb
                * BASE_PAGE + 4 * BASE_PAGE && 0 < page_cost) by (nonlinear_arith)
                requires
                    1 <= fpb <= 0x1000,
                    stride == spec_percpu_stride(fpb, 4),
                    page_cost == (fpb + 4) * (BASE_PAGE as int),
                    BASE_PAGE == 0x1000,
                    linker::STACK_GUARD_SIZE == 0x1000,
            ;
        }

        let mut info: Vec<PerCpuInfo> = Vec::new();
        let mut virt: u64 = linker::PERCPU_OFFSET;
        let mut c: usize = 0;
        while c < num
            invariant
                self.wf(),
                memory.wf(),
                memory.kernel_region() == old(memory).kernel_region(),
                addrs.wf(),
                1 <= num <= linker::MAX_CPUS,
                c <= num,
                1 <= frames_per_block <= 0x1000,
                frames_per_stack == 4,
                fpb == frames_per_block as int,
                stride == spec_percpu_stride(fpb, 4),
                stride <= 0x1006000,
                stride % (BASE_PAGE as int) == 0,
                page_cost == (fpb + 4) * (BASE_PAGE as int),
                page_cost == fpb * BASE_PAGE + 4 * BASE_PAGE,
                0 < page_cost,
                virt == linker::PERCPU_OFFSET + c * stride,
                virt % (BASE_PAGE as u64) == 0,
                memory.free_bytes() == old(memory).free_bytes() - c * page_cost,
                memory.free_bytes() >= (num - c) * page_cost,
                info@.len() == c,
                forall|i: int|
                    #![trigger info@[i]]
                    0 <= i < c ==> {
                        &&& info@[i].storage == linker::PERCPU_OFFSET + i * stride
                        &&& info@[i].stack.base == info@[i].storage + fpb * BASE_PAGE
                            + linker::STACK_GUARD_SIZE
                        &&& info@[i].stack.length == linker::STACK_SIZE
                    },
                self.kern_pd == old(self).kern_pd,
                self.kern_pts == old(self).kern_pts,
                self.kdev_pd == old(self).kdev_pd,
                self.kdev_pt == old(self).kdev_pt,
                self.phys_pdpts == old(self).phys_pdpts,
                old(memory).allocated().subset_of(memory.allocated()),
                forall|v: u64|
                    #![trigger spec_percpu_page(v, num as int, fpb)]
                    spec_percpu_page(v, num as int, fpb) && v < virt ==> percpu_page_installed(
                        *old(self),
                        *self,
                        *old(memory),
                        *memory,
                        v,
                    ),
                forall|v: u64|
                    #![trigger spec_percpu_page(v, num as int, fpb)]
                    spec_percpu_page(v, num as int, fpb) && v >= virt
                        ==> self.percpu_pts@[window_pd_index(
                        v,
                        linker::PERCPU_OFFSET,
                    )].table@[window_pt_index(v)] == old(self).percpu_pts@[window_pd_index(
                        v,
                        linker::PERCPU_OFFSET,
                    )].table@[window_pt_index(v)],
            decreases num - c,
        {
            proof {
                assert(c * stride <= 15 * stride && (c + 1) * stride == c * stride + stride && (num
                    - c) * page_cost >= page_cost && (num - (c + 1)) * page_cost == (num - c)
                    * page_cost - page_cost && (c + 1) * page_cost == c * page_cost + page_cost)
                    by (nonlinear_arith)
                    requires
                        0 <= c < num <= 16,
                        0 < stride,
                        0 < page_cost,
                ;
            }
            let storage = virt;
            let ghost free_at_core = memory.free_bytes();
            let mut j: usize = 0;
            while j < frames_per_block
                invariant
                    self.wf(),
                    memory.wf(),
                    memory.kernel_region() == old(memory).kernel_region(),
                    addrs.wf(),
                    j <= frames_per_block,
                    1 <= frames_per_block <= 0x1000,
                    fpb == frames_per_block as int,
                    storage == linker::PERCPU_OFFSET + c as int * stride,
                    storage % (BASE_PAGE as u64) == 0,
                    0 <= c as int * stride <= 15 * stride,
                    stride <= 0x1006000,
                    virt == storage + j * BASE_PAGE,
                    virt % (BASE_PAGE as u64) == 0,
                    memory.free_bytes() == free_at_core - j * BASE_PAGE,
                    free_at_core >= fpb * BASE_PAGE + 4 * BASE_PAGE,
                    1 <= num <= linker::MAX_CPUS,
                    0 <= c < num,
                    stride == spec_percpu_stride(fpb, 4),
                    memory.kernel_region() == old(memory).kernel_region(),
                    self.kern_pd == old(self).kern_pd,
                    self.kern_pts == old(self).kern_pts,
                    self.kdev_pd == old(self).kdev_pd,
                    self.kdev_pt == old(self).kdev_pt,
                    self.phys_pdpts == old(self).phys_pdpts,
                    old(memory).allocated().subset_of(memory.allocated()),
                    forall|v: u64|
                        #![trigger spec_percpu_page(v, num as int, fpb)]
                        spec_percpu_page(v, num as int, fpb) && v < virt ==> percpu_page_installed(
                            *old(self),
                            *self,
                            *old(memory),
                            *memory,
                            v,
                        ),
                    forall|v: u64|
                        #![trigger spec_percpu_page(v, num as int, fpb)]
                        spec_percpu_page(v, num as int, fpb) && v >= virt
                            ==> self.percpu_pts@[window_pd_index(
                            v,
                            linker::PERCPU_OFFSET,
                        )].table@[window_pt_index(v)] == old(self).percpu_pts@[window_pd_index(
                            v,
                            linker::PERCPU_OFFSET,
                        )].table@[window_pt_index(v)],
                decreases frames_per_block - j,
            {
                proof {
                    assert((j + 1) * (BASE_PAGE as int) == j * BASE_PAGE + BASE_PAGE && j
                        * BASE_PAGE + BASE_PAGE <= fpb * BASE_PAGE) by (nonlinear_arith)
                        requires
                            0 <= j < fpb,
                            BASE_PAGE == 0x1000,
                    ;
                }
                let ghost self0 = *self;
                let ghost mem0 = *memory;
                let frame = match memory.next() {
                    Ok(f) => f,
                    Err(_) => {
                        proof {
                            assert(false);
                        }
                        0
                    },
                };
                proof {
                    assert(c as int * stride <= 15 * 0x1006000);
                    assert(j * BASE_PAGE <= fpb * BASE_PAGE && fpb * BASE_PAGE <= 0x1000000)
                        by (nonlinear_arith)
                        requires
                            0 <= j < fpb <= 0x1000,
                            BASE_PAGE == 0x1000,
                    ;
                    assert(virt - linker::PERCPU_OFFSET < linker::NUM_PERCPU_PTS * MEGA_PAGE);
                }
                self.map_percpu_page(addrs, virt, frame);
                proof {
                    crate::mm::paging::lemma_multiple_props(
                        virt as int,
                        BASE_PAGE as int,
                        BASE_PAGE as int,
                    );
                    vstd::arithmetic::div_mod::lemma_mod_multiples_basic(
                        j as int,
                        BASE_PAGE as int,
                    );
                    lemma_percpu_page_at(c as int, j as int * BASE_PAGE, num as int, fpb, virt);
                    lemma_percpu_page_bounds(virt, num as int, fpb);
                    assert(percpu_page_backed(
                        *old(self),
                        *self,
                        *old(memory),
                        *memory,
                        virt,
                        frame,
                    ));
                    assert forall|v: u64|
                        #![trigger spec_percpu_page(v, num as int, fpb)]
                        spec_percpu_page(v, num as int, fpb) && v < virt
                            + BASE_PAGE implies percpu_page_installed(
                        *old(self),
                        *self,
                        *old(memory),
                        *memory,
                        v,
                    ) by {
                        lemma_percpu_page_bounds(v, num as int, fpb);
                        if v < virt {
                            assert(percpu_page_installed(
                                *old(self),
                                self0,
                                *old(memory),
                                mem0,
                                v,
                            ));
                            let f = choose|f: u64|
                                percpu_page_backed(*old(self), self0, *old(memory), mem0, v, f);
                            lemma_percpu_pair_injective(v, virt);
                            assert(percpu_page_backed(
                                *old(self),
                                *self,
                                *old(memory),
                                *memory,
                                v,
                                f,
                            ));
                        } else {
                            crate::mm::paging::lemma_multiple_props(
                                v as int,
                                virt as int,
                                BASE_PAGE as int,
                            );
                            assert(v == virt);
                        }
                    }
                    assert forall|v: u64|
                        #![trigger spec_percpu_page(v, num as int, fpb)]
                        spec_percpu_page(v, num as int, fpb) && v >= virt
                            + BASE_PAGE implies self.percpu_pts@[window_pd_index(
                        v,
                        linker::PERCPU_OFFSET,
                    )].table@[window_pt_index(v)] == old(self).percpu_pts@[window_pd_index(
                        v,
                        linker::PERCPU_OFFSET,
                    )].table@[window_pt_index(v)] by {
                        lemma_percpu_page_bounds(v, num as int, fpb);
                        lemma_percpu_pair_injective(v, virt);
                    }
                }
                virt = virt + BASE_PAGE as u64;
                j += 1;
            }
            // Stack guard hole.
            proof {
                crate::mm::paging::lemma_multiple_props(
                    virt as int,
                    linker::STACK_GUARD_SIZE as int,
                    BASE_PAGE as int,
                );
                assert forall|v: u64|
                    #![trigger spec_percpu_page(v, num as int, fpb)]
                    spec_percpu_page(v, num as int, fpb) && v < virt
                        + linker::STACK_GUARD_SIZE implies percpu_page_installed(
                    *old(self),
                    *self,
                    *old(memory),
                    *memory,
                    v,
                ) by {
                    if v >= virt {
                        lemma_percpu_guard_hole(
                            c as int,
                            v - linker::PERCPU_OFFSET - c as int * stride,
                            num as int,
                            fpb,
                            v,
                        );
                    } else {
                        assert(percpu_page_installed(
                            *old(self),
                            *self,
                            *old(memory),
                            *memory,
                            v,
                        ));
                    }
                }
                assert forall|v: u64|
                    #![trigger spec_percpu_page(v, num as int, fpb)]
                    spec_percpu_page(v, num as int, fpb) && v >= virt
                        + linker::STACK_GUARD_SIZE implies self.percpu_pts@[window_pd_index(
                    v,
                    linker::PERCPU_OFFSET,
                )].table@[window_pt_index(v)] == old(self).percpu_pts@[window_pd_index(
                    v,
                    linker::PERCPU_OFFSET,
                )].table@[window_pt_index(v)] by {
                    assert(v >= virt);
                }
            }
            virt = virt + linker::STACK_GUARD_SIZE as u64;
            // The stack itself; it sits on a page boundary, which satisfies
            // the 16-byte alignment the calling convention demands.
            let stack = virt;
            let mut j: usize = 0;
            while j < frames_per_stack
                invariant
                    self.wf(),
                    memory.wf(),
                    memory.kernel_region() == old(memory).kernel_region(),
                    addrs.wf(),
                    j <= frames_per_stack,
                    frames_per_stack == 4,
                    1 <= frames_per_block <= 0x1000,
                    fpb == frames_per_block as int,
                    storage == linker::PERCPU_OFFSET + c as int * stride,
                    0 <= c as int * stride <= 15 * stride,
                    stride <= 0x1006000,
                    stack == storage + fpb * BASE_PAGE + linker::STACK_GUARD_SIZE,
                    virt == stack + j * BASE_PAGE,
                    virt % (BASE_PAGE as u64) == 0,
                    memory.free_bytes() == free_at_core - fpb * BASE_PAGE - j * BASE_PAGE,
                    free_at_core >= fpb * BASE_PAGE + 4 * BASE_PAGE,
                    1 <= num <= linker::MAX_CPUS,
                    0 <= c < num,
                    stride == spec_percpu_stride(fpb, 4),
                    memory.kernel_region() == old(memory).kernel_region(),
                    self.kern_pd == old(self).kern_pd,
                    self.kern_pts == old(self).kern_pts,
                    self.kdev_pd == old(self).kdev_pd,
                    self.kdev_pt == old(self).kdev_pt,
                    self.phys_pdpts == old(self).phys_pdpts,
                    old(memory).allocated().subset_of(memory.allocated()),
                    forall|v: u64|
                        #![trigger spec_percpu_page(v, num as int, fpb)]
                        spec_percpu_page(v, num as int, fpb) && v < virt ==> percpu_page_installed(
                            *old(self),
                            *self,
                            *old(memory),
                            *memory,
                            v,
                        ),
                    forall|v: u64|
                        #![trigger spec_percpu_page(v, num as int, fpb)]
                        spec_percpu_page(v, num as int, fpb) && v >= virt
                            ==> self.percpu_pts@[window_pd_index(
                            v,
                            linker::PERCPU_OFFSET,
                        )].table@[window_pt_index(v)] == old(self).percpu_pts@[window_pd_index(
                            v,
                            linker::PERCPU_OFFSET,
                        )].table@[window_pt_index(v)],
                decreases frames_per_stack - j,
            {
                proof {
                    assert((j + 1) * (BASE_PAGE as int) == j * BASE_PAGE + BASE_PAGE)
                        by (nonlinear_arith);
                }
                let ghost self0 = *self;
                let ghost mem0 = *memory;
                let frame = match memory.next() {
                    Ok(f) => f,
                    Err(_) => {
                        proof {
                            assert(false);
                        }
                        0
                    },
                };
                proof {
                    assert(c as int * stride <= 15 * 0x1006000);
                    assert(j * BASE_PAGE <= 4 * BASE_PAGE && fpb * BASE_PAGE <= 0x1000000)
                        by (nonlinear_arith)
                        requires
                            0 <= j < 4,
                            1 <= fpb <= 0x1000,
                            BASE_PAGE == 0x1000,
                    ;
                    assert(virt - linker::PERCPU_OFFSET < linker::NUM_PERCPU_PTS * MEGA_PAGE);
                }
                self.map_percpu_page(addrs, virt, frame);
                proof {
                    crate::mm::paging::lemma_multiple_props(
                        virt as int,
                        BASE_PAGE as int,
                        BASE_PAGE as int,
                    );
                    vstd::arithmetic::div_mod::lemma_mod_multiples_basic(
                        j as int,
                        BASE_PAGE as int,
                    );
                    lemma_percpu_page_at(
                        c as int,
                        fpb * BASE_PAGE + linker::STACK_GUARD_SIZE + j as int * BASE_PAGE,
                        num as int,
                        fpb,
                        virt,
                    );
                    lemma_percpu_page_bounds(virt, num as int, fpb);
                    assert(percpu_page_backed(
                        *old(self),
                        *self,
                        *old(memory),
                        *memory,
                        virt,
                        frame,
                    ));
                    assert forall|v: u64|
                        #![trigger spec_percpu_page(v, num as int, fpb)]
                        spec_percpu_page(v, num as int, fpb) && v < virt
                            + BASE_PAGE implies percpu_page_installed(
                        *old(self),
                        *self,
                        *old(memory),
                        *memory,
                        v,
                    ) by {
                        lemma_percpu_page_bounds(v, num as int, fpb);
                        if v < virt {
                            assert(percpu_page_installed(
                                *old(self),
                                self0,
                                *old(memory),
                                mem0,
                                v,
                            ));
                            let f = choose|f: u64|
                                percpu_page_backed(*old(self), self0, *old(memory), mem0, v, f);
                            lemma_percpu_pair_injective(v, virt);
                            assert(percpu_page_backed(
                                *old(self),
                                *self,
                                *old(memory),
                                *memory,
                                v,
                                f,
                            ));
                        } else {
                            crate::mm::paging::lemma_multiple_props(
                                v as int,
                                virt as int,
                                BASE_PAGE as int,
                            );
                            assert(v == virt);
                        }
                    }
                    assert forall|v: u64|
                        #![trigger spec_percpu_page(v, num as int, fpb)]
                        spec_percpu_page(v, num as int, fpb) && v >= virt
                            + BASE_PAGE implies self.percpu_pts@[window_pd_index(
                        v,
                        linker::PERCPU_OFFSET,
                    )].table@[window_pt_index(v)] == old(self).percpu_pts@[window_pd_index(
                        v,
                        linker::PERCPU_OFFSET,
                    )].table@[window_pt_index(v)] by {
                        lemma_percpu_page_bounds(v, num as int, fpb);
                        lemma_percpu_pair_injective(v, virt);
                    }
                }
                virt = virt + BASE_PAGE as u64;
                j += 1;
            }
            // Second guard hole.
            proof {
                crate::mm::paging::lemma_multiple_props(
                    virt as int,
                    linker::STACK_GUARD_SIZE as int,
                    BASE_PAGE as int,
                );
                assert forall|v: u64|
                    #![trigger spec_percpu_page(v, num as int, fpb)]
                    spec_percpu_page(v, num as int, fpb) && v < virt
                        + linker::STACK_GUARD_SIZE implies percpu_page_installed(
                    *old(self),
                    *self,
                    *old(memory),
                    *memory,
                    v,
                ) by {
                    if v >= virt {
                        lemma_percpu_guard_hole(
                            c as int,
                            v - linker::PERCPU_OFFSET - c as int * stride,
                            num as int,
                            fpb,
                            v,
                        );
                    } else {
                        assert(percpu_page_installed(
                            *old(self),
                            *self,
                            *old(memory),
                            *memory,
                            v,
                        ));
                    }
                }
                assert forall|v: u64|
                    #![trigger spec_percpu_page(v, num as int, fpb)]
                    spec_percpu_page(v, num as int, fpb) && v >= virt
                        + linker::STACK_GUARD_SIZE implies self.percpu_pts@[window_pd_index(
                    v,
                    linker::PERCPU_OFFSET,
                )].table@[window_pt_index(v)] == old(self).percpu_pts@[window_pd_index(
                    v,
                    linker::PERCPU_OFFSET,
                )].table@[window_pt_index(v)] by {
                    assert(v >= virt);
                }
            }
            virt = virt + linker::STACK_GUARD_SIZE as u64;
            info.push(
                PerCpuInfo { storage, stack: Region { base: stack, length: linker::STACK_SIZE } },
            );
            c += 1;
        }
        proof {
            // Every block's pages lie below the final cursor.
            assert forall|v: u64|
                #![trigger spec_percpu_page(v, num as int, fpb)]
                spec_percpu_page(v, num as int, fpb) implies percpu_page_installed(
                *old(self),
                *self,
                *old(memory),
                *memory,
                v,
            ) by {
                lemma_percpu_page_bounds(v, num as int, fpb);
                assert(num as int * stride == num * stride);
                assert(v < virt);
            }
        }
        info
    }
}

impl KernelTables {
    /// Map the secondary-processor bootstrap window: three pages of the
    /// kernel window, at the bootstrap code's linked address, onto the
    /// low-memory frames the startup vector implies, overwriting whatever
    /// the slots held.
    ///
    /// Zeroing the window and copying the bootstrap code image into it go
    /// through the physical-memory window once the tables are active, which
    /// is the hardware layer's task.
    pub fn setup_ap_bootcode(
        &mut self,
        addrs: &TableAddrs,
        layout: &crate::linker::KernelLayout,
        vector: u8,
    ) -> (r: BootcodeSetup)
        requires
            old(self).wf(),
            addrs.wf(),
            layout.wf(),
            1 <= vector < 125,
            layout.boot16_start % (BASE_PAGE as u64) == 0,
            layout.boot16_start + 0x3000 <= linker::KERNEL_SIZE,
        ensures
            final(self).wf(),
            forall|i: int|
                #![trigger final(self).kern_pts@[window_pd_index((linker::VIRT_OFFSET + layout.boot16_start + i * BASE_PAGE) as u64, linker::VIRT_OFFSET)].table@[window_pt_index((linker::VIRT_OFFSET + layout.boot16_start + i * BASE_PAGE) as u64)]]
                0 <= i < 3 ==> final(self).kern_pts@[window_pd_index(
                    (linker::VIRT_OFFSET + layout.boot16_start + i * BASE_PAGE) as u64,
                    linker::VIRT_OFFSET,
                )].table@[window_pt_index(
                    (linker::VIRT_OFFSET + layout.boot16_start + i * BASE_PAGE) as u64,
                )] == (PTE {
                    bits: spec_entry_bits(
                        (vector * 0x1000 + i * BASE_PAGE) as u64,
                        ENTRY_P | ENTRY_RW,
                    ),
                }),
            // The memory work that finishes the window, handed out as one
            // command: zero the whole window at its physical address, then
            // copy the bootstrap code image over its start.
            r == (BootcodeSetup {
                dst: (vector * 0x1000) as u64,
                zero_len: 0x3000,
                src: layout.boot16_start,
                copy_len: (layout.boot16_end - layout.boot16_start) as u64,
            }),
    {
        // The physical address at which the bootcode is mapped; the window
        // must sit inside the free legacy low-memory range.
        let phys = (vector as u64) << 12;
        proof {
            assert((vector as u64) << 12 == vector * 0x1000) by (bit_vector)
                requires
                    vector < 125,
            ;
        }
        let virt = linker::VIRT_OFFSET + layout.boot16_start;

        proof {
            lemma_link_constants();
        }
        let mapper = Mapper::new(linker::VIRT_OFFSET);
        let pdpt_mapper = mapper.pdpt(
            &mut self.top,
            pml4_index(virt),
            addrs.kernel_pdpt,
            Flags::Enable(ENTRY_P | ENTRY_RW),
        );
        let pd_mapper = pdpt_mapper.pd(
            &mut self.kernel_pdpt,
            pdpt_index(virt),
            addrs.kern_pd,
            Flags::Enable(ENTRY_P | ENTRY_RW),
        );

        let mut i: usize = 0;
        while i < 3
            invariant
                i <= 3,
                self.kern_pd.wf(),
                self.top.wf(),
                self.kernel_pdpt.wf(),
                self.kdev_pd.wf(),
                self.kdev_pt.wf(),
                self.percpu_pds@.len() == linker::NUM_PERCPU_PDS,
                forall|t: int|
                    0 <= t < linker::NUM_PERCPU_PDS ==> (#[trigger] self.percpu_pds@[t]).wf(),
                self.percpu_pts@.len() == linker::NUM_PERCPU_PTS,
                forall|t: int|
                    0 <= t < linker::NUM_PERCPU_PTS ==> (#[trigger] self.percpu_pts@[t]).wf(),
                self.phys_pdpts@.len() == linker::NUM_PHYS_PDPTS,
                forall|t: int|
                    0 <= t < linker::NUM_PHYS_PDPTS ==> (#[trigger] self.phys_pdpts@[t]).wf(),
                self.kern_pts@.len() == linker::NUM_KERN_PTS,
                forall|t: int|
                    0 <= t < linker::NUM_KERN_PTS ==> (#[trigger] self.kern_pts@[t]).wf(),
                pd_mapper.wf(),
                pd_mapper.link_offset == linker::VIRT_OFFSET,
                addrs.wf(),
                layout.wf(),
                1 <= vector < 125,
                layout.boot16_start % (BASE_PAGE as u64) == 0,
                layout.boot16_start + 0x3000 <= linker::KERNEL_SIZE,
                phys == vector * 0x1000,
                virt == linker::VIRT_OFFSET + layout.boot16_start,
                forall|j: int|
                    #![trigger self.kern_pts@[window_pd_index((virt + j * BASE_PAGE) as u64, linker::VIRT_OFFSET)].table@[window_pt_index((virt + j * BASE_PAGE) as u64)]]
                    0 <= j < i ==> self.kern_pts@[window_pd_index(
                        (virt + j * BASE_PAGE) as u64,
                        linker::VIRT_OFFSET,
                    )].table@[window_pt_index((virt + j * BASE_PAGE) as u64)] == (PTE {
                        bits: spec_entry_bits(
                            (phys + j * BASE_PAGE) as u64,
                            ENTRY_P | ENTRY_RW,
                        ),
                    }),
            decreases 3 - i,
        {
            let v = virt + (i as u64) * (BASE_PAGE as u64);
            proof {
                lemma_link_constants();
                vstd::arithmetic::div_mod::lemma_mod_multiples_basic(i as int, BASE_PAGE as int);
                crate::mm::paging::lemma_multiple_props(
                    layout.boot16_start as int,
                    i as int * BASE_PAGE,
                    BASE_PAGE as int,
                );
                crate::mm::paging::lemma_multiple_props(
                    linker::VIRT_OFFSET as int,
                    layout.boot16_start + i as int * BASE_PAGE,
                    BASE_PAGE as int,
                );
                lemma_window_index_bridge(v, linker::VIRT_OFFSET);
                lemma_window_index_bridge(linker::VIRT_OFFSET, linker::VIRT_OFFSET);
            }
            let idx = pd_index(v);
            let pt_i = idx - pd_index(linker::VIRT_OFFSET);
            proof {
                let d = v - linker::VIRT_OFFSET;
                vstd::arithmetic::div_mod::lemma_fundamental_div_mod(
                    d as int,
                    MEGA_PAGE as int,
                );
                vstd::arithmetic::div_mod::lemma_mod_bound(d as int, MEGA_PAGE as int);
                assert(window_pd_index(v, linker::VIRT_OFFSET) < 256) by (nonlinear_arith)
                    requires
                        (MEGA_PAGE as int) * window_pd_index(v, linker::VIRT_OFFSET) <= v
                            - linker::VIRT_OFFSET,
                        v - linker::VIRT_OFFSET < 256 * (MEGA_PAGE as int),
                        MEGA_PAGE as int > 0,
                        window_pd_index(v, linker::VIRT_OFFSET) == (v - linker::VIRT_OFFSET) / (
                        MEGA_PAGE as int),
                ;
                assert(pt_i < linker::NUM_KERN_PTS);
                vstd::arithmetic::div_mod::lemma_mod_multiples_basic(
                    pt_i as int,
                    BASE_PAGE as int,
                );
                crate::mm::paging::lemma_multiple_props(
                    addrs.kern_pts as int,
                    pt_i as int * BASE_PAGE,
                    BASE_PAGE as int,
                );
                crate::mm::paging::lemma_multiple_props(
                    vector * 0x1000,
                    i as int * BASE_PAGE,
                    BASE_PAGE as int,
                );
            }
            let pt_vaddr = addrs.kern_pts + (pt_i as u64) * (BASE_PAGE as u64);
            let ghost pts_entry = self.kern_pts@;
            let mut pt = self.kern_pts.remove(pt_i);
            let pt_mapper = pd_mapper.pt(
                &mut self.kern_pd,
                idx,
                pt_vaddr,
                Flags::Enable(ENTRY_P | ENTRY_RW),
            );
            pt_mapper.map(
                &mut pt,
                pt_index(v),
                phys + (i as u64) * (BASE_PAGE as u64),
                Flags::Assign(ENTRY_P | ENTRY_RW),
            );
            self.kern_pts.insert(pt_i, pt);
            proof {
                assert(self.kern_pts@ =~= pts_entry.update(pt_i as int, pt));
                assert forall|j: int|
                    #![trigger window_pt_index((virt + j * BASE_PAGE) as u64)]
                    0 <= j < i + 1 implies self.kern_pts@[window_pd_index(
                    (virt + j * BASE_PAGE) as u64,
                    linker::VIRT_OFFSET,
                )].table@[window_pt_index((virt + j * BASE_PAGE) as u64)] == (PTE {
                    bits: spec_entry_bits(
                        (phys + j * BASE_PAGE) as u64,
                        ENTRY_P | ENTRY_RW,
                    ),
                }) by {
                    let vj = (virt + j * BASE_PAGE) as u64;
                    vstd::arithmetic::div_mod::lemma_mod_multiples_basic(j, BASE_PAGE as int);
                    crate::mm::paging::lemma_multiple_props(
                        layout.boot16_start as int,
                        j * BASE_PAGE,
                        BASE_PAGE as int,
                    );
                    crate::mm::paging::lemma_multiple_props(
                        linker::VIRT_OFFSET as int,
                        layout.boot16_start + j * BASE_PAGE,
                        BASE_PAGE as int,
                    );
                    lemma_window_index_bridge(vj, linker::VIRT_OFFSET);
                    if j < i {
                        assert(window_pd_index(vj, linker::VIRT_OFFSET) != pt_i as int
                            || window_pt_index(vj) != window_pt_index(v));
                    }
                }
            }
            i += 1;
        }
        BootcodeSetup {
            dst: phys,
            zero_len: 0x3000,
            src: layout.boot16_start,
            copy_len: layout.boot16_end - layout.boot16_start,
        }
    }
}

} // verus!
