//! Four-level paging structures: sizes, alignment arithmetic, table indexing,
//! and the 64-bit entry words of each translation level.

use vstd::arithmetic::div_mod::lemma_mod_bound;
use vstd::arithmetic::power2::lemma2_to64;
use vstd::arithmetic::power2::lemma_pow2_pos;
use vstd::arithmetic::power2::pow2;
use vstd::bits::lemma_u64_low_bits_mask_is_mod;
use vstd::bits::low_bits_mask;
use vstd::prelude::*;

verus! {

pub const KILOBYTE: usize = 1024;
pub const MEGABYTE: usize = 1024 * KILOBYTE;
pub const GIGABYTE: usize = 1024 * MEGABYTE;

pub const BASE_PAGE: usize = 4 * KILOBYTE;
pub const MEGA_PAGE: usize = 2 * MEGABYTE;
pub const GIGA_PAGE: usize = 1 * GIGABYTE;

pub const PT_COVERAGE: usize = 512 * BASE_PAGE;
pub const PD_COVERAGE: usize = 512 * MEGA_PAGE;
pub const PDPT_COVERAGE: u64 = 512 * 0x4000_0000;

pub const PML4_BIT_SHIFT: u64 = 39;
pub const PDPT_BIT_SHIFT: u64 = 30;
pub const PD_BIT_SHIFT: u64 = 21;
pub const PT_BIT_SHIFT: u64 = 12;

/// The maximum number of bits in a physical address.
pub const MAXPHYADDRESS: u64 = 52;

/// Maximum number of bits in a virtual address (four-level paging).
pub const MAX_VADDR_BITS: u64 = 48;

/// Mask used to test if an address is in canonical form: bits 63:47.
pub const CANONICAL_ADDRESS_MASK: u64 = 0xffff_8000_0000_0000;

/// Mask used to check if an address is page aligned.
pub const PAGE_ALIGN_MASK: u64 = 0xfff;

/// Mask for table addresses: bits 51:12.
pub const ADDRESS_MASK: u64 = 0x000f_ffff_ffff_f000;

/// `a` is a power of two.
pub open spec fn is_pow2(a: u64) -> bool {
    exists|k: nat| k < 64 && a == pow2(k)
}

/// The largest multiple of `a` that is at most `x`.
pub open spec fn spec_align_down(x: int, a: int) -> int {
    x - (x % a)
}

/// The smallest multiple of `a` that is at least `x`.
pub open spec fn spec_align_up(x: int, a: int) -> int {
    spec_align_down(x + a - 1, a)
}

pub open spec fn spec_is_aligned(x: int, a: int) -> bool {
    x % a == 0
}

/// For a power of two `a`, masking with `!(a - 1)` rounds down to a multiple
/// of `a`, and masking with `a - 1` extracts the remainder.
pub proof fn lemma_pow2_mask(a: u64, x: u64)
    requires
        is_pow2(a),
    ensures
        x & !((a - 1) as u64) == x - (x % a),
        x & ((a - 1) as u64) == x % a,
        x % a < a,
        a >= 1,
{
    let k = choose|k: nat| k < 64 && a == pow2(k);
    lemma_pow2_pos(k);
    lemma_u64_low_bits_mask_is_mod(x, k);
    assert(low_bits_mask(k) == a - 1);
    lemma_mod_bound(x as int, a as int);
    let m = (a - 1) as u64;
    assert(x == (x & m) + (x & !m)) by (bit_vector);
}

/// Law (alignment idempotence): aligning up yields an aligned address for
/// every input and every positive alignment; an already-aligned address
/// aligns to itself in both directions; and aligning down after aligning up
/// changes nothing.
pub proof fn lemma_align_idempotent(x: int, a: int)
    requires
        a > 0,
    ensures
        spec_is_aligned(spec_align_up(x, a), a),
        spec_is_aligned(x, a) ==> spec_align_up(x, a) == x && spec_align_down(x, a) == x,
        spec_align_down(spec_align_up(x, a), a) == spec_align_up(x, a),
{
    lemma_align_down_multiple(x + a - 1, a);
    if spec_is_aligned(x, a) {
        vstd::arithmetic::div_mod::lemma_fundamental_div_mod(x, a);
        let q = x / a;
        assert(x + a - 1 == q * a + (a - 1)) by (nonlinear_arith)
            requires
                x == a * q + 0,
        ;
        vstd::arithmetic::div_mod::lemma_fundamental_div_mod_converse(x + a - 1, a, q, a - 1);
    }
}

/// The page sizes and table-entry counts used by four-level paging are
/// powers of two.
pub proof fn lemma_pow2_sizes()
    ensures
        is_pow2(BASE_PAGE as u64),
        is_pow2(MEGA_PAGE as u64),
        is_pow2(GIGA_PAGE as u64),
        is_pow2(512),
{
    lemma2_to64();
    assert(BASE_PAGE as u64 == pow2(12));
    assert(MEGA_PAGE as u64 == pow2(21));
    assert(GIGA_PAGE as u64 == pow2(30));
    assert(512u64 == pow2(9));
}

/// Aligning down yields a multiple of `p` within one `p` below the input.
pub proof fn lemma_align_down_multiple(x: int, p: int)
    requires
        p > 0,
    ensures
        spec_align_down(x, p) % p == 0,
        x - p < spec_align_down(x, p) <= x,
{
    vstd::arithmetic::div_mod::lemma_fundamental_div_mod(x, p);
    vstd::arithmetic::div_mod::lemma_mod_bound(x, p);
    vstd::arithmetic::div_mod::lemma_mod_multiples_basic(x / p, p);
    let q = x / p;
    assert(x - (x % p) == p * q);
    assert(p * q == q * p) by (nonlinear_arith);
    assert((q * p) % p == 0);
}

/// Sums and differences of multiples of `p` are multiples of `p`, and a
/// positive multiple of `p` is at least `p`.
pub proof fn lemma_multiple_props(a: int, b: int, p: int)
    requires
        p > 0,
        a % p == 0,
        b % p == 0,
    ensures
        (a - b) % p == 0,
        (a + b) % p == 0,
        a > b ==> a - b >= p,
{
    vstd::arithmetic::div_mod::lemma_fundamental_div_mod(a, p);
    vstd::arithmetic::div_mod::lemma_fundamental_div_mod(b, p);
    let qa = a / p;
    let qb = b / p;
    assert(a - b == (qa - qb) * p && a + b == (qa + qb) * p) by (nonlinear_arith)
        requires
            a == p * qa + 0,
            b == p * qb + 0,
    ;
    vstd::arithmetic::div_mod::lemma_mod_multiples_basic(qa - qb, p);
    vstd::arithmetic::div_mod::lemma_mod_multiples_basic(qa + qb, p);
    if a > b {
        assert(a - b >= p) by (nonlinear_arith)
            requires
                p > 0,
                a - b == (qa - qb) * p,
                a - b > 0,
        ;
    }
}

/// Each 9-bit table index extracted from a virtual address is below 512.
pub proof fn lemma_index_bound(v: u64)
    by (bit_vector)
    ensures
        (v >> 39) & 0x1ff < 512,
        (v >> 30) & 0x1ff < 512,
        (v >> 21) & 0x1ff < 512,
        (v >> 12) & 0x1ff < 512,
{
}

pub open spec fn spec_is_canonical(addr: u64) -> bool {
    addr & CANONICAL_ADDRESS_MASK == CANONICAL_ADDRESS_MASK || addr & CANONICAL_ADDRESS_MASK == 0
}

/// Return true if the given address is canonical: its top 17 bits are all
/// equal.
pub fn is_canonical(addr: u64) -> (r: bool)
    ensures
        r == spec_is_canonical(addr),
{
    (addr & CANONICAL_ADDRESS_MASK == CANONICAL_ADDRESS_MASK) || (addr & CANONICAL_ADDRESS_MASK
        == 0)
}

pub open spec fn spec_pml4_index(virt: u64) -> usize {
    ((virt >> PML4_BIT_SHIFT) & 0x1ff) as usize
}

pub open spec fn spec_pdpt_index(virt: u64) -> usize {
    ((virt >> PDPT_BIT_SHIFT) & 0x1ff) as usize
}

pub open spec fn spec_pd_index(virt: u64) -> usize {
    ((virt >> PD_BIT_SHIFT) & 0x1ff) as usize
}

pub open spec fn spec_pt_index(virt: u64) -> usize {
    ((virt >> PT_BIT_SHIFT) & 0x1ff) as usize
}

/// Compute the top-level table index of the given address.
pub fn pml4_index(virt: u64) -> (r: usize)
    ensures
        r == spec_pml4_index(virt),
        r < 512,
{
    proof {
        lemma_index_bound(virt);
    }
    ((virt >> PML4_BIT_SHIFT) & 0x1ff) as usize
}

/// Compute the middle-high-level table index of the given address.
pub fn pdpt_index(virt: u64) -> (r: usize)
    ensures
        r == spec_pdpt_index(virt),
        r < 512,
{
    proof {
        lemma_index_bound(virt);
    }
    ((virt >> PDPT_BIT_SHIFT) & 0x1ff) as usize
}

/// Compute the middle-level table index of the given address.
pub fn pd_index(virt: u64) -> (r: usize)
    ensures
        r == spec_pd_index(virt),
        r < 512,
{
    proof {
        lemma_index_bound(virt);
    }
    ((virt >> PD_BIT_SHIFT) & 0x1ff) as usize
}

/// Compute the low-level table index of the given address.
pub fn pt_index(virt: u64) -> (r: usize)
    ensures
        r == spec_pt_index(virt),
        r < 512,
{
    proof {
        lemma_index_bound(virt);
    }
    ((virt >> PT_BIT_SHIFT) & 0x1ff) as usize
}

/// Returns true if `addr` is aligned on `ALIGNMENT`.
///
/// `ALIGNMENT` must be a power of two.
pub fn is_aligned<const ALIGNMENT: usize>(addr: u64) -> (r: bool)
    requires
        is_pow2(ALIGNMENT as u64),
    ensures
        r == spec_is_aligned(addr as int, ALIGNMENT as int),
{
    proof {
        lemma_pow2_mask(ALIGNMENT as u64, addr);
    }
    addr & ((ALIGNMENT as u64) - 1) == 0
}

/// Align `addr` down on `ALIGNMENT`.
///
/// `ALIGNMENT` must be a power of two.
pub fn align_down<const ALIGNMENT: usize>(addr: u64) -> (r: u64)
    requires
        is_pow2(ALIGNMENT as u64),
    ensures
        r == spec_align_down(addr as int, ALIGNMENT as int),
{
    proof {
        lemma_pow2_mask(ALIGNMENT as u64, addr);
    }
    addr & !((ALIGNMENT as u64) - 1)
}

/// Align `addr` up on `ALIGNMENT`.
///
/// `ALIGNMENT` must be a power of two, and rounding up must not leave `u64`.
pub fn align_up<const ALIGNMENT: usize>(addr: u64) -> (r: u64)
    requires
        is_pow2(ALIGNMENT as u64),
        addr + ALIGNMENT - 1 <= u64::MAX,
    ensures
        r == spec_align_up(addr as int, ALIGNMENT as int),
{
    proof {
        lemma_pow2_mask(ALIGNMENT as u64, addr);
    }
    let bump = addr + ((ALIGNMENT as u64) - 1);
    proof {
        lemma_pow2_mask(ALIGNMENT as u64, bump);
    }
    bump & !((ALIGNMENT as u64) - 1)
}

/// Return how many tables (or frames) with `COVERAGE` bytes of reach are
/// needed to cover a memory block of the given size.
pub fn num_tables<const COVERAGE: usize>(size: usize) -> (r: usize)
    requires
        is_pow2(COVERAGE as u64),
        size + COVERAGE - 1 <= usize::MAX,
    ensures
        r == spec_align_up(size as int, COVERAGE as int) / COVERAGE as int,
{
    proof {
        lemma_pow2_mask(COVERAGE as u64, size as u64);
        lemma_mod_bound(size + COVERAGE - 1, COVERAGE as int);
    }
    (align_up::<COVERAGE>(size as u64) as usize) / COVERAGE
}

// Flag bits shared by the three upper translation levels (bits 63 and 11:0).
/// Present; must be 1 for the entry to take part in translation.
pub const ENTRY_P: u64 = 0x1;

/// R/W; if 0, writes are not allowed to the region controlled by the entry.
pub const ENTRY_RW: u64 = 0x2;

/// U/S; if 0, user-mode accesses are not allowed to the controlled region.
pub const ENTRY_US: u64 = 0x4;

/// Page-level write-through.
pub const ENTRY_PWT: u64 = 0x8;

/// Page-level cache disable.
pub const ENTRY_PCD: u64 = 0x10;

/// Accessed; set by hardware when the entry is used for translation.
pub const ENTRY_A: u64 = 0x20;

/// Ignored by hardware at the three upper levels; Dirty at the lowest level.
pub const ENTRY_D: u64 = 0x40;

/// Page size; at the middle-high and middle levels a set bit means the entry
/// maps a huge page instead of pointing at a next-level table.  Reserved
/// (must be 0) at the top level; PAT at the lowest level.
pub const ENTRY_PS: u64 = 0x80;

/// Global translation (lowest level, with CR4.PGE); ignored above.
pub const ENTRY_G: u64 = 0x100;

/// Available to software.
pub const ENTRY_USER_0: u64 = 0x200;

/// Available to software.
pub const ENTRY_USER_1: u64 = 0x400;

/// Available to software.
pub const ENTRY_USER_2: u64 = 0x800;

/// If IA32_EFER.NXE = 1: execute-disable.
pub const ENTRY_XD: u64 = 0x8000_0000_0000_0000;

/// The flag bits defined for top-, middle-high- and middle-level entries:
/// bits 11:0 and bit 63.
pub const ENTRY_FLAGS_MASK: u64 = 0x8000_0000_0000_0fff;

/// The flag bits defined for lowest-level entries: bits 11:0, the
/// software-available bits 58:52, and bit 63.
pub const PTE_FLAGS_MASK: u64 = 0x87f0_0000_0000_0fff;

/// The word written by constructing an entry from a physical address and a
/// set of flags: address bits 51:12 joined with the flag bits.
pub open spec fn spec_entry_bits(addr: u64, flags: u64) -> u64 {
    (addr & ADDRESS_MASK) | flags
}

/// Top-level (PML4) entry.
#[derive(Clone, Copy, PartialEq, Eq, Structural)]
pub struct PML4E {
    pub bits: u64,
}

impl PML4E {
    /// An empty (non-present) entry.
    pub fn zero() -> (r: Self)
        ensures
            r.bits == 0,
    {
        PML4E { bits: 0 }
    }

    /// Build an entry pointing at a middle-high-level table.
    ///
    /// * `pdpt` - the physical address of that table.
    /// * `flags` - the flag bits of the entry.
    pub fn new(pdpt: u64, flags: u64) -> (r: Self)
        ensures
            r.bits == spec_entry_bits(pdpt, flags),
    {
        PML4E { bits: (pdpt & ADDRESS_MASK) | flags }
    }

    /// The physical address held in the entry.
    pub fn address(&self) -> (r: u64)
        ensures
            r == self.bits & ADDRESS_MASK,
    {
        self.bits & ADDRESS_MASK
    }

    /// Replace the physical address held in the entry, keeping the flags.
    pub fn set_address(&mut self, pdpt: u64)
        ensures
            final(self).bits == (old(self).bits & !ADDRESS_MASK) | (pdpt & ADDRESS_MASK),
    {
        self.bits &= !ADDRESS_MASK;
        self.bits |= pdpt & ADDRESS_MASK;
    }

    /// The flag bits of the entry.
    pub fn flags(&self) -> (r: u64)
        ensures
            r == self.bits & ENTRY_FLAGS_MASK,
    {
        self.bits & ENTRY_FLAGS_MASK
    }

    /// Replace the flag bits of the entry, keeping the address.
    pub fn set_flags(&mut self, flags: u64)
        ensures
            final(self).bits == (old(self).bits & ADDRESS_MASK) | flags,
    {
        self.bits &= ADDRESS_MASK;
        self.bits |= flags;
    }
}

/// Middle-high-level (PDPT) entry; maps a 1 GiB huge page when `ENTRY_PS`
/// is set, else points at a middle-level table.
#[derive(Clone, Copy, PartialEq, Eq, Structural)]
pub struct PDPTE {
    pub bits: u64,
}

impl PDPTE {
    /// An empty (non-present) entry.
    pub fn zero() -> (r: Self)
        ensures
            r.bits == 0,
    {
        PDPTE { bits: 0 }
    }

    /// Build an entry from the physical address of a middle-level table (or
    /// of a 1 GiB page when the huge-page flag is among `flags`).
    pub fn new(pd: u64, flags: u64) -> (r: Self)
        ensures
            r.bits == spec_entry_bits(pd, flags),
    {
        PDPTE { bits: (pd & ADDRESS_MASK) | flags }
    }

    /// The physical address held in the entry.
    pub fn address(&self) -> (r: u64)
        ensures
            r == self.bits & ADDRESS_MASK,
    {
        self.bits & ADDRESS_MASK
    }

    /// Replace the physical address held in the entry, keeping the flags.
    pub fn set_address(&mut self, pd: u64)
        ensures
            final(self).bits == (old(self).bits & !ADDRESS_MASK) | (pd & ADDRESS_MASK),
    {
        self.bits &= !ADDRESS_MASK;
        self.bits |= pd & ADDRESS_MASK;
    }

    /// The flag bits of the entry.
    pub fn flags(&self) -> (r: u64)
        ensures
            r == self.bits & ENTRY_FLAGS_MASK,
    {
        self.bits & ENTRY_FLAGS_MASK
    }

    /// Replace the flag bits of the entry, keeping the address.
    pub fn set_flags(&mut self, flags: u64)
        ensures
            final(self).bits == (old(self).bits & ADDRESS_MASK) | flags,
    {
        self.bits &= ADDRESS_MASK;
        self.bits |= flags;
    }
}

/// Middle-level (PD) entry; maps a 2 MiB huge page when `ENTRY_PS` is set,
/// else points at a lowest-level table.
#[derive(Clone, Copy, PartialEq, Eq, Structural)]
pub struct PDE {
    pub bits: u64,
}

impl PDE {
    /// An empty (non-present) entry.
    pub fn zero() -> (r: Self)
        ensures
            r.bits == 0,
    {
        PDE { bits: 0 }
    }

    /// Build an entry from the physical address of a lowest-level table (or
    /// of a 2 MiB page when the huge-page flag is among `flags`).
    pub fn new(pt: u64, flags: u64) -> (r: Self)
        ensures
            r.bits == spec_entry_bits(pt, flags),
    {
        PDE { bits: (pt & ADDRESS_MASK) | flags }
    }

    /// The physical address held in the entry.
    pub fn address(&self) -> (r: u64)
        ensures
            r == self.bits & ADDRESS_MASK,
    {
        self.bits & ADDRESS_MASK
    }

    /// Replace the physical address held in the entry, keeping the flags.
    pub fn set_address(&mut self, pt: u64)
        ensures
            final(self).bits == (old(self).bits & !ADDRESS_MASK) | (pt & ADDRESS_MASK),
    {
        self.bits &= !ADDRESS_MASK;
        self.bits |= pt & ADDRESS_MASK;
    }

    /// The flag bits of the entry.
    pub fn flags(&self) -> (r: u64)
        ensures
            r == self.bits & ENTRY_FLAGS_MASK,
    {
        self.bits & ENTRY_FLAGS_MASK
    }

    /// Replace the flag bits of the entry, keeping the address.
    pub fn set_flags(&mut self, flags: u64)
        ensures
            final(self).bits == (old(self).bits & ADDRESS_MASK) | flags,
    {
        self.bits &= ADDRESS_MASK;
        self.bits |= flags;
    }
}

/// Lowest-level (PT) entry; maps one 4 KiB page.
#[derive(Clone, Copy, PartialEq, Eq, Structural)]
pub struct PTE {
    pub bits: u64,
}

impl PTE {
    /// An empty (non-present) entry.
    pub fn zero() -> (r: Self)
        ensures
            r.bits == 0,
    {
        PTE { bits: 0 }
    }

    /// Build an entry from the physical address of a 4 KiB frame.
    pub fn new(frame: u64, flags: u64) -> (r: Self)
        ensures
            r.bits == spec_entry_bits(frame, flags),
    {
        PTE { bits: (frame & ADDRESS_MASK) | flags }
    }

    /// The physical frame address held in the entry.
    pub fn frame(&self) -> (r: u64)
        ensures
            r == self.bits & ADDRESS_MASK,
    {
        self.bits & ADDRESS_MASK
    }

    /// Replace the frame address held in the entry, keeping the flags.
    pub fn set_frame(&mut self, frame: u64)
        ensures
            final(self).bits == (old(self).bits & !ADDRESS_MASK) | (frame & ADDRESS_MASK),
    {
        self.bits &= !ADDRESS_MASK;
        self.bits |= frame & ADDRESS_MASK;
    }

    /// The flag bits of the entry.
    pub fn flags(&self) -> (r: u64)
        ensures
            r == self.bits & PTE_FLAGS_MASK,
    {
        self.bits & PTE_FLAGS_MASK
    }

    /// Replace the flag bits of the entry, keeping the address.
    pub fn set_flags(&mut self, flags: u64)
        ensures
            final(self).bits == (old(self).bits & ADDRESS_MASK) | flags,
    {
        self.bits &= ADDRESS_MASK;
        self.bits |= flags;
    }
}

/// A top-level (PML4) table of 512 entries.
#[derive(Clone)]
pub struct PML4 {
    pub table: Vec<PML4E>,
}

impl PML4 {
    /// A well-formed table has exactly 512 entries.
    pub open spec fn wf(&self) -> bool {
        self.table@.len() == 512
    }

    /// A fresh table with all 512 entries empty.
    pub fn zero() -> (r: Self)
        ensures
            r.wf(),
            forall|i: int| 0 <= i < 512 ==> r.table@[i].bits == 0,
    {
        let mut table: Vec<PML4E> = Vec::new();
        let mut i: usize = 0;
        while i < 512
            invariant
                i <= 512,
                table@.len() == i,
                forall|j: int| 0 <= j < i ==> table@[j].bits == 0,
            decreases 512 - i,
        {
            table.push(PML4E::zero());
            i += 1;
        }
        PML4 { table }
    }
}

/// A middle-high-level (PDPT) table of 512 entries.
#[derive(Clone)]
pub struct PDPT {
    pub table: Vec<PDPTE>,
}

impl PDPT {
    /// A well-formed table has exactly 512 entries.
    pub open spec fn wf(&self) -> bool {
        self.table@.len() == 512
    }

    /// A fresh table with all 512 entries empty.
    pub fn zero() -> (r: Self)
        ensures
            r.wf(),
            forall|i: int| 0 <= i < 512 ==> r.table@[i].bits == 0,
    {
        let mut table: Vec<PDPTE> = Vec::new();
        let mut i: usize = 0;
        while i < 512
            invariant
                i <= 512,
                table@.len() == i,
                forall|j: int| 0 <= j < i ==> table@[j].bits == 0,
            decreases 512 - i,
        {
            table.push(PDPTE::zero());
            i += 1;
        }
        PDPT { table }
    }
}

/// A middle-level (PD) table of 512 entries.
#[derive(Clone)]
pub struct PD {
    pub table: Vec<PDE>,
}

impl PD {
    /// A well-formed table has exactly 512 entries.
    pub open spec fn wf(&self) -> bool {
        self.table@.len() == 512
    }

    /// A fresh table with all 512 entries empty.
    pub fn zero() -> (r: Self)
        ensures
            r.wf(),
            forall|i: int| 0 <= i < 512 ==> r.table@[i].bits == 0,
    {
        let mut table: Vec<PDE> = Vec::new();
        let mut i: usize = 0;
        while i < 512
            invariant
                i <= 512,
                table@.len() == i,
                forall|j: int| 0 <= j < i ==> table@[j].bits == 0,
            decreases 512 - i,
        {
            table.push(PDE::zero());
            i += 1;
        }
        PD { table }
    }
}

/// A lowest-level (PT) table of 512 entries.
#[derive(Clone)]
pub struct PT {
    pub table: Vec<PTE>,
}

impl PT {
    /// A well-formed table has exactly 512 entries.
    pub open spec fn wf(&self) -> bool {
        self.table@.len() == 512
    }

    /// A fresh table with all 512 entries empty.
    pub fn zero() -> (r: Self)
        ensures
            r.wf(),
            forall|i: int| 0 <= i < 512 ==> r.table@[i].bits == 0,
    {
        let mut table: Vec<PTE> = Vec::new();
        let mut i: usize = 0;
        while i < 512
            invariant
                i <= 512,
                table@.len() == i,
                forall|j: int| 0 <= j < i ==> table@[j].bits == 0,
            decreases 512 - i,
        {
            table.push(PTE::zero());
            i += 1;
        }
        PT { table }
    }
}

} // verus!
