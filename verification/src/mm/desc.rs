//! Physical memory regions and the descriptors the platform hands over.

use vstd::prelude::*;

use crate::mm::paging::is_pow2;
use crate::mm::paging::lemma_pow2_mask;
use crate::mm::paging::spec_align_down;
use crate::mm::paging::spec_align_up;
use crate::mm::paging::align_down;
use crate::mm::paging::align_up;

verus! {

/// A contiguous byte range of memory.
///
/// Regions can either be physical or virtual; it is up to the user to make
/// clear which one it is.
#[derive(Debug, Clone, Copy, PartialEq, Eq, Structural)]
pub struct Region {
    pub base: u64,
    pub length: usize,
}

impl Region {
    /// The first address after the region.
    pub open spec fn spec_end(self) -> int {
        self.base + self.length
    }

    /// The region's end fits in the address space.
    pub open spec fn in_bounds(self) -> bool {
        self.base + self.length <= u64::MAX
    }

    /// `x` and `y` touch or overlap.
    pub open spec fn spec_overlapping(x: Region, y: Region) -> bool {
        x.base <= y.spec_end() && x.spec_end() >= y.base
    }

    /// The result of shrinking the region inward to `a`-byte bounds: the
    /// base moves up to the next multiple of `a` and the length is rounded
    /// down to a multiple of `a`.  The result is `None` exactly when the
    /// aligned length becomes zero.
    pub open spec fn spec_align(self, a: int) -> Option<Region> {
        let base = spec_align_up(self.base as int, a);
        let diff = base - self.base;
        if self.length < a + diff {
            None
        } else {
            Some(
                Region {
                    base: base as u64,
                    length: spec_align_down(self.length - diff, a) as usize,
                },
            )
        }
    }

    /// The smallest region covering both `x` and `y`, defined when they
    /// touch or overlap.
    pub open spec fn spec_merge(x: Region, y: Region) -> Option<Region> {
        if Region::spec_overlapping(x, y) {
            let base = if x.base <= y.base {
                x.base
            } else {
                y.base
            };
            let end = if x.spec_end() >= y.spec_end() {
                x.spec_end()
            } else {
                y.spec_end()
            };
            Some(Region { base, length: (end - base) as usize })
        } else {
            None
        }
    }

    /// Regions are ordered by `(base, length)`.
    pub open spec fn spec_le(x: Region, y: Region) -> bool {
        x.base < y.base || (x.base == y.base && x.length <= y.length)
    }

    /// Compare two regions in `(base, length)` order.
    pub fn le(x: &Region, y: &Region) -> (r: bool)
        ensures
            r == Region::spec_le(*x, *y),
    {
        x.base < y.base || (x.base == y.base && x.length <= y.length)
    }

    /// Calculate the end address of the region.
    pub fn end(&self) -> (r: u64)
        requires
            self.in_bounds(),
        ensures
            r == self.spec_end(),
    {
        self.base + self.length as u64
    }

    /// Return true if `x` and `y` have any overlap (touching counts, so that
    /// adjacent regions can be merged).
    pub fn are_overlapping(x: &Region, y: &Region) -> (r: bool)
        requires
            x.in_bounds(),
            y.in_bounds(),
        ensures
            r == Region::spec_overlapping(*x, *y),
    {
        (x.base <= y.end()) && (x.end() >= y.base)
    }

    /// Align the region inward for the given alignment.  This also aligns
    /// the length.
    ///
    /// Returns None exactly when the aligned length becomes zero.
    pub fn align<const ALIGNMENT: usize>(&self) -> (r: Option<Region>)
        requires
            is_pow2(ALIGNMENT as u64),
            self.base + ALIGNMENT <= u64::MAX,
            2 * ALIGNMENT <= usize::MAX,
        ensures
            r == self.spec_align(ALIGNMENT as int),
    {
        proof {
            lemma_pow2_mask(ALIGNMENT as u64, (self.base + ALIGNMENT - 1) as u64);
        }
        let base = align_up::<ALIGNMENT>(self.base);
        let diff = base - self.base;

        if self.length < ALIGNMENT + diff as usize {
            None
        } else {
            Some(
                Region {
                    base,
                    length: align_down::<ALIGNMENT>(self.length as u64 - diff) as usize,
                },
            )
        }
    }

    /// Merge two regions.
    ///
    /// Returns [None] if the regions are not overlapping.
    pub fn merge(x: &Region, y: &Region) -> (r: Option<Region>)
        requires
            x.in_bounds(),
            y.in_bounds(),
            Region::spec_overlapping(*x, *y) ==> Region::spec_merge(*x, *y).unwrap().length
                <= usize::MAX,
        ensures
            r == Region::spec_merge(*x, *y),
    {
        if Region::are_overlapping(x, y) {
            let base = if x.base <= y.base {
                x.base
            } else {
                y.base
            };
            let xe = x.end();
            let ye = y.end();
            let end = if xe >= ye {
                xe
            } else {
                ye
            };
            Some(Region { base, length: (end - base) as usize })
        } else {
            None
        }
    }
}

/// Memory kind.
///
/// The standard firmware memory map classes.
#[derive(Debug, Clone, Copy, PartialEq, Eq, Structural)]
pub enum MemoryKind {
    Usable,
    Reserved,
    AcpiReclaimable,
    AcpiNvs,
    Defective,
}

/// A memory descriptor, as produced by the platform's memory map.
#[derive(Debug, Clone, Copy, PartialEq, Eq, Structural)]
pub struct MemoryDescriptor {
    pub region: Region,
    pub kind: MemoryKind,
}

impl MemoryDescriptor {
    /// Descriptors are ordered by `(base, length)` of the region they span.
    pub open spec fn spec_le(x: MemoryDescriptor, y: MemoryDescriptor) -> bool {
        x.region.base < y.region.base || (x.region.base == y.region.base && x.region.length
            <= y.region.length)
    }

    /// Return true if the memory region is usable.
    pub fn is_usable(&self) -> (r: bool)
        ensures
            r == (self.kind == MemoryKind::Usable),
    {
        self.kind == MemoryKind::Usable
    }

    /// Compare two descriptors in `(base, length)` order.
    pub fn le(x: &MemoryDescriptor, y: &MemoryDescriptor) -> (r: bool)
        ensures
            r == MemoryDescriptor::spec_le(*x, *y),
    {
        x.region.base < y.region.base || (x.region.base == y.region.base && x.region.length
            <= y.region.length)
    }
}

} // verus!
