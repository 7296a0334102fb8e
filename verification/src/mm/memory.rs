//! The boot-time physical frame allocator.
//!
//! Free memory is kept as a bounded min-heap of `(base, length)` regions
//! ordered by base address, so the lowest free frame is always handed out
//! next.  Regions are pairwise disjoint, page-aligned, above the low-memory
//! boundary, and outside the kernel's own footprint; every frame returned by
//! [`Memory::next`] is therefore free and is never returned twice.

use vstd::multiset::Multiset;
use vstd::prelude::*;

use heapless::binary_heap::BinaryHeap;
use heapless::binary_heap::Min;

use crate::mm::desc::MemoryDescriptor;
use crate::mm::desc::MemoryKind;
use crate::mm::desc::Region;
use crate::mm::paging::is_pow2;
use crate::mm::paging::lemma_align_down_multiple;
use crate::mm::paging::lemma_multiple_props;
use crate::mm::paging::spec_align_up;
use crate::mm::paging::BASE_PAGE;

verus! {

broadcast use vstd::multiset::group_multiset_axioms;

/// The first address above the legacy low-memory area (1 MiB), which is
/// reserved for bootstrapping secondary processors.
pub const LOWERMEM_END: u64 = 0x10_0000;

/// Capacity of the allocator's region heap.
///
/// One slot more than the maximum descriptor count: carving the kernel's own
/// footprint out of a donor region can split it into two pieces.
pub const REGION_HEAP_SLOTS: usize = 33;

#[verifier::external_type_specification]
#[verifier::external_body]
#[verifier::reject_recursive_types(T)]
#[verifier::reject_recursive_types(K)]
pub struct ExBinaryHeap<T, K, const N: usize>(BinaryHeap<T, K, N>);

#[verifier::external_type_specification]
#[verifier::external_body]
pub struct ExMin(Min);

/// The multiset of items currently stored in a region heap.
pub uninterp spec fn heap_contents(h: BinaryHeap<(u64, u64), Min, REGION_HEAP_SLOTS>) -> Multiset<
    (u64, u64),
>;

/// `x` is at most `y` in the lexicographic tuple order documented for pairs
/// in the standard library, which is the order the min-heap uses.
pub open spec fn tup_le(x: (u64, u64), y: (u64, u64)) -> bool {
    x.0 < y.0 || (x.0 == y.0 && x.1 <= y.1)
}

/// `x` is a least element of `m`.
pub open spec fn is_min_of(m: Multiset<(u64, u64)>, x: (u64, u64)) -> bool {
    forall|y: (u64, u64)| #[trigger] m.count(y) > 0 ==> tup_le(x, y)
}

/// Relies on `heapless::binary_heap::BinaryHeap::new`: a fresh heap holds
/// nothing.
#[verifier::external_body]
fn region_heap_new() -> (h: BinaryHeap<(u64, u64), Min, REGION_HEAP_SLOTS>)
    ensures
        heap_contents(h) == Multiset::<(u64, u64)>::empty(),
{
    BinaryHeap::new()
}

/// Relies on `heapless::binary_heap::BinaryHeap::push`: stores the item, or
/// returns it in `Err` when the heap already holds `N` items.
#[verifier::external_body]
fn region_heap_push(
    h: &mut BinaryHeap<(u64, u64), Min, REGION_HEAP_SLOTS>,
    item: (u64, u64),
) -> (r: Result<(), (u64, u64)>)
    ensures
        match r {
            Ok(_) => heap_contents(*old(h)).len() < REGION_HEAP_SLOTS && heap_contents(*final(h))
                == heap_contents(*old(h)).insert(item),
            Err(e) => e == item && heap_contents(*old(h)).len() >= REGION_HEAP_SLOTS
                && heap_contents(*final(h)) == heap_contents(*old(h)),
        },
{
    h.push(item)
}

/// Relies on `heapless::binary_heap::BinaryHeap::peek` on a `Min` heap: a
/// least stored item (in the item type's `Ord`), without removing it.
#[verifier::external_body]
fn region_heap_peek(h: &BinaryHeap<(u64, u64), Min, REGION_HEAP_SLOTS>) -> (r: Option<(u64, u64)>)
    ensures
        match r {
            None => heap_contents(*h).len() == 0,
            Some(x) => heap_contents(*h).count(x) > 0 && is_min_of(heap_contents(*h), x),
        },
{
    h.peek().copied()
}

/// Relies on `heapless::binary_heap::BinaryHeap::pop` on a `Min` heap:
/// removes and returns a least stored item.
#[verifier::external_body]
fn region_heap_pop(h: &mut BinaryHeap<(u64, u64), Min, REGION_HEAP_SLOTS>) -> (r: Option<(u64, u64)>)
    ensures
        match r {
            None => heap_contents(*old(h)).len() == 0 && heap_contents(*final(h)) == heap_contents(
                *old(h),
            ),
            Some(x) => heap_contents(*old(h)).count(x) > 0 && heap_contents(*final(h))
                == heap_contents(*old(h)).remove(x) && is_min_of(heap_contents(*old(h)), x),
        },
{
    h.pop()
}

/// The total number of bytes covered by the regions of `m`.
pub open spec fn sum_lengths(m: Multiset<(u64, u64)>) -> int
    decreases m.len(),
{
    if m.len() == 0 {
        0
    } else {
        let x = m.choose();
        x.1 + sum_lengths(m.remove(x))
    }
}

/// Removing one region takes exactly its length out of the sum.
pub proof fn lemma_sum_remove(m: Multiset<(u64, u64)>, x: (u64, u64))
    requires
        m.count(x) > 0,
    ensures
        sum_lengths(m) == x.1 + sum_lengths(m.remove(x)),
    decreases m.len(),
{
    assert(Multiset::singleton(x).subset_of(m));
    let c = m.choose();
    if c == x {
    } else {
        assert(m.count(c) > 0);
        assert(m.remove(c).count(x) > 0);
        assert(Multiset::singleton(c).subset_of(m));
        lemma_sum_remove(m.remove(c), x);
        assert(m.remove(x).count(c) > 0);
        lemma_sum_remove(m.remove(x), c);
        assert(m.remove(c).remove(x) =~= m.remove(x).remove(c));
    }
}

/// Inserting one region puts exactly its length into the sum.
pub proof fn lemma_sum_insert(m: Multiset<(u64, u64)>, x: (u64, u64))
    ensures
        sum_lengths(m.insert(x)) == sum_lengths(m) + x.1,
{
    let mi = m.insert(x);
    assert(mi.count(x) > 0);
    lemma_sum_remove(mi, x);
    assert(mi.remove(x) =~= m);
}

/// The byte sum of any region multiset is non-negative.
pub proof fn lemma_sum_nonneg(m: Multiset<(u64, u64)>)
    ensures
        sum_lengths(m) >= 0,
    decreases m.len(),
{
    if m.len() == 0 {
    } else {
        let x = m.choose();
        assert(m.count(x) > 0);
        lemma_sum_nonneg(m.remove(x));
    }
}

/// A region whose end leaves headroom for page-alignment arithmetic and for
/// holding lengths in `usize`.
pub open spec fn region_bounded(r: Region) -> bool {
    r.base + r.length <= usize::MAX - BASE_PAGE
}

/// The regions of the usable descriptors, in list order.
pub open spec fn spec_usable_regions(d: Seq<MemoryDescriptor>) -> Seq<Region> {
    d.filter(|x: MemoryDescriptor| x.kind == MemoryKind::Usable).map_values(
        |x: MemoryDescriptor| x.region,
    )
}

/// The `(base, length)` order on regions, as a value.
pub open spec fn region_leq() -> spec_fn(Region, Region) -> bool {
    |x: Region, y: Region| Region::spec_le(x, y)
}

/// `(base, length)` order is a total ordering on regions.
pub proof fn lemma_region_leq_total()
    ensures
        vstd::relations::total_ordering(region_leq()),
{
    let leq = region_leq();
    assert forall|x: Region, y: Region| #[trigger] leq(x, y) && #[trigger] leq(y, x) implies x
        == y by {
        assert(x.base == y.base && x.length == y.length);
    }
}

/// The usable regions, sorted by `(base, length)`.
pub open spec fn spec_sorted_usable(d: Seq<MemoryDescriptor>) -> Seq<Region> {
    spec_usable_regions(d).sort_by(region_leq())
}

/// One left-to-right coalescing pass: each region is folded into the last
/// survivor when they touch or overlap, and starts a new survivor
/// otherwise.
pub open spec fn spec_coalesce(s: Seq<Region>) -> Seq<Region>
    decreases s.len(),
{
    if s.len() == 0 {
        Seq::empty()
    } else {
        let acc = spec_coalesce(s.drop_last());
        let r = s.last();
        if acc.len() > 0 && Region::spec_overlapping(acc.last(), r) {
            acc.update(acc.len() - 1, Region::spec_merge(acc.last(), r).unwrap())
        } else {
            acc.push(r)
        }
    }
}

/// The free pieces one region contributes: it is page-aligned inward,
/// clipped to the low-memory boundary, and the kernel footprint is carved
/// out of what remains, splitting it in two when the kernel lies strictly
/// inside.
pub open spec fn spec_carve_one(r: Region, kernel: Region) -> Seq<(u64, u64)> {
    match r.spec_align(BASE_PAGE as int) {
        Option::None => Seq::empty(),
        Option::Some(a) => {
            let clipped = if a.base < LOWERMEM_END {
                if a.spec_end() <= LOWERMEM_END {
                    Option::None
                } else {
                    Option::Some(
                        Region {
                            base: LOWERMEM_END,
                            length: (a.spec_end() - LOWERMEM_END) as usize,
                        },
                    )
                }
            } else {
                Option::Some(a)
            };
            match clipped {
                Option::None => Seq::empty(),
                Option::Some(c) => {
                    if Region::spec_overlapping(c, kernel) {
                        if c.spec_end() <= kernel.spec_end() {
                            if c.base < kernel.base {
                                seq![(c.base, (kernel.base - c.base) as u64)]
                            } else {
                                Seq::empty()
                            }
                        } else {
                            if c.base < kernel.base {
                                seq![
                                    (c.base, (kernel.base - c.base) as u64),
                                    (
                                        kernel.spec_end() as u64,
                                        (c.spec_end() - kernel.spec_end()) as u64,
                                    ),
                                ]
                            } else {
                                seq![
                                    (
                                        kernel.spec_end() as u64,
                                        (c.spec_end() - kernel.spec_end()) as u64,
                                    ),
                                ]
                            }
                        }
                    } else {
                        seq![(c.base, c.length as u64)]
                    }
                },
            }
        },
    }
}

/// The free pieces of a whole region list, in order.
pub open spec fn spec_carve(s: Seq<Region>, kernel: Region) -> Seq<(u64, u64)>
    decreases s.len(),
{
    if s.len() == 0 {
        Seq::empty()
    } else {
        spec_carve(s.drop_last(), kernel) + spec_carve_one(s.last(), kernel)
    }
}

/// The free pieces the allocator is built from: the usable regions, sorted
/// by `(base, length)`, coalesced, page-aligned inward, clipped to the
/// low-memory boundary, with the kernel footprint carved out.
pub open spec fn spec_free_pieces(d: Seq<MemoryDescriptor>, kernel: Region) -> Seq<(u64, u64)> {
    spec_carve(spec_coalesce(spec_sorted_usable(d)), kernel)
}

/// The usable regions of the descriptor list, sorted by `(base, length)`.
#[verifier::rlimit(60)]
#[verifier::spinoff_prover]
fn sorted_usable(descriptors: &Vec<MemoryDescriptor>) -> (out: Vec<Region>)
    requires
        forall|i: int|
            0 <= i < descriptors@.len() ==> region_bounded(#[trigger] descriptors@[i].region),
    ensures
        out@.len() <= descriptors@.len(),
        forall|i: int| 0 <= i < out@.len() ==> region_bounded(#[trigger] out@[i]),
        forall|i: int, j: int|
            #![trigger out@[i], out@[j]]
            0 <= i < j < out@.len() ==> Region::spec_le(out@[i], out@[j]),
        out@ == spec_sorted_usable(descriptors@),
{
    broadcast use vstd::seq_lib::group_to_multiset_ensures;
    broadcast use vstd::seq_lib::to_multiset_update;

    let ghost usable = spec_usable_regions(descriptors@);
    let mut out: Vec<Region> = Vec::new();
    let mut i: usize = 0;
    while i < descriptors.len()
        invariant
            i <= descriptors@.len(),
            out@.len() <= i,
            forall|k: int|
                0 <= k < descriptors@.len() ==> region_bounded(#[trigger] descriptors@[k].region),
            forall|k: int| 0 <= k < out@.len() ==> region_bounded(#[trigger] out@[k]),
            out@ == spec_usable_regions(descriptors@.take(i as int)),
        decreases descriptors@.len() - i,
    {
        if descriptors[i].is_usable() {
            out.push(descriptors[i].region);
        }
        proof {
            broadcast use Seq::lemma_filter_push;

            let pred = |x: MemoryDescriptor| x.kind == MemoryKind::Usable;
            let f = |x: MemoryDescriptor| x.region;
            let t0 = descriptors@.take(i as int);
            let d = descriptors@[i as int];
            assert(descriptors@.take(i + 1) =~= t0.push(d));
            if pred(d) {
                assert(t0.push(d).filter(pred) == t0.filter(pred).push(d));
                assert(out@ =~= descriptors@.take(i + 1).filter(pred).map_values(f));
            } else {
                assert(t0.push(d).filter(pred) == t0.filter(pred));
                assert(out@ =~= descriptors@.take(i + 1).filter(pred).map_values(f));
            }
        }
        i += 1;
    }
    proof {
        assert(descriptors@.take(descriptors@.len() as int) =~= descriptors@);
        assert(out@ == usable);
    }
    // Selection sort by `(base, length)`.
    let mut s: usize = 0;
    while s < out.len()
        invariant
            s <= out@.len(),
            out@.len() <= descriptors@.len(),
            forall|k: int| 0 <= k < out@.len() ==> region_bounded(#[trigger] out@[k]),
            forall|i1: int, j1: int|
                #![trigger out@[i1], out@[j1]]
                0 <= i1 < j1 < s ==> Region::spec_le(out@[i1], out@[j1]),
            forall|i1: int, j1: int|
                #![trigger out@[i1], out@[j1]]
                0 <= i1 < s <= j1 < out@.len() ==> Region::spec_le(out@[i1], out@[j1]),
            out@.to_multiset() == usable.to_multiset(),
        decreases out@.len() - s,
    {
        let mut mi: usize = s;
        let mut t: usize = s + 1;
        while t < out.len()
            invariant
                s <= mi < t <= out@.len(),
                forall|k: int| s <= k < t ==> Region::spec_le(out@[mi as int], #[trigger] out@[k]),
            decreases out@.len() - t,
        {
            if Region::le(&out[t], &out[mi]) {
                mi = t;
            }
            t += 1;
        }
        let ghost before = out@;
        let a = out[s];
        let b = out[mi];
        out.set(s, b);
        out.set(mi, a);
        proof {
            // Swapping two positions leaves the multiset unchanged.
            let m = before.to_multiset();
            let mid = before.update(s as int, b);
            assert(out@ == mid.update(mi as int, a));
            assert(before.contains(a) && before.contains(b));
            vstd::seq_lib::to_multiset_contains(before, a);
            vstd::seq_lib::to_multiset_contains(before, b);
            vstd::seq_lib::to_multiset_update(before, s as int, b);
            vstd::seq_lib::to_multiset_update(mid, mi as int, a);
            assert(m.count(a) > 0 && m.count(b) > 0);
            assert(mid.to_multiset() == m.insert(b).remove(a));
            assert(mid[mi as int] == b);
            assert(out@.to_multiset() == mid.to_multiset().insert(a).remove(b));
            assert(out@.to_multiset() =~= before.to_multiset());
        }
        s += 1;
    }
    proof {
        // The sorted permutation of a list under a total order is unique.
        lemma_region_leq_total();
        usable.lemma_sort_by_ensures(region_leq());
        assert(vstd::relations::sorted_by(out@, region_leq()));
        vstd::seq_lib::lemma_sorted_unique(out@, usable.sort_by(region_leq()), region_leq());
        assert(out@ == spec_sorted_usable(descriptors@));
    }
    out
}

/// Fold touching or overlapping neighbours of a sorted region list into
/// single regions, leaving strict gaps between all survivors.
#[verifier::rlimit(60)]
#[verifier::spinoff_prover]
fn coalesce_regions(v: &Vec<Region>) -> (out: Vec<Region>)
    requires
        forall|i: int| 0 <= i < v@.len() ==> region_bounded(#[trigger] v@[i]),
        forall|i: int, j: int|
            #![trigger v@[i], v@[j]]
            0 <= i < j < v@.len() ==> Region::spec_le(v@[i], v@[j]),
    ensures
        out@.len() <= v@.len(),
        forall|i: int| 0 <= i < out@.len() ==> region_bounded(#[trigger] out@[i]),
        forall|i: int, j: int|
            #![trigger out@[i], out@[j]]
            0 <= i < j < out@.len() ==> out@[i].spec_end() < out@[j].base,
        out@ == spec_coalesce(v@),
{
    let mut out: Vec<Region> = Vec::new();
    let mut i: usize = 0;
    while i < v.len()
        invariant
            i <= v@.len(),
            out@.len() <= i,
            forall|k: int| 0 <= k < v@.len() ==> region_bounded(#[trigger] v@[k]),
            forall|i1: int, j1: int|
                #![trigger v@[i1], v@[j1]]
                0 <= i1 < j1 < v@.len() ==> Region::spec_le(v@[i1], v@[j1]),
            forall|k: int| 0 <= k < out@.len() ==> region_bounded(#[trigger] out@[k]),
            forall|i1: int, j1: int|
                #![trigger out@[i1], out@[j1]]
                0 <= i1 < j1 < out@.len() ==> out@[i1].spec_end() < out@[j1].base,
            out@.len() > 0 && i < v@.len() ==> out@[out@.len() - 1].base <= v@[i as int].base,
            out@ == spec_coalesce(v@.take(i as int)),
        decreases v@.len() - i,
    {
        let r = v[i];
        let ghost prev = out@;
        if out.len() > 0 {
            let last = out[out.len() - 1];
            if Region::are_overlapping(&last, &r) {
                if let Some(m) = Region::merge(&last, &r) {
                    let _ = out.pop();
                    out.push(m);
                    proof {
                        assert(out@ =~= prev.update(prev.len() - 1, m));
                    }
                } else {
                    proof {
                        assert(false);
                    }
                }
            } else {
                out.push(r);
            }
        } else {
            out.push(r);
        }
        proof {
            let t1 = v@.take(i + 1);
            assert(t1.drop_last() =~= v@.take(i as int));
            assert(t1.last() == v@[i as int]);
            assert(out@ == spec_coalesce(t1));
        }
        i += 1;
    }
    proof {
        assert(v@.take(v@.len() as int) =~= v@);
    }
    out
}

/// Page-align each region inward, clip away everything below the low-memory
/// boundary, and carve out the kernel footprint, splitting a donor region in
/// two when the kernel lies strictly inside it.
#[verifier::rlimit(60)]
#[verifier::spinoff_prover]
fn carve_regions(v: &Vec<Region>, kernel: Region) -> (out: Vec<(u64, u64)>)
    requires
        forall|i: int| 0 <= i < v@.len() ==> region_bounded(#[trigger] v@[i]),
        forall|i: int, j: int|
            #![trigger v@[i], v@[j]]
            0 <= i < j < v@.len() ==> v@[i].spec_end() < v@[j].base,
        kernel.base % (BASE_PAGE as u64) == 0,
        kernel.length % BASE_PAGE == 0,
        kernel.length >= BASE_PAGE,
        kernel.in_bounds(),
    ensures
        out@.len() <= v@.len() + 1,
        forall|i: int| 0 <= i < out@.len() ==> region_fits(#[trigger] out@[i], kernel),
        forall|i: int, j: int|
            #![trigger out@[i], out@[j]]
            0 <= i < j < out@.len() ==> out@[i].0 + out@[i].1 <= out@[j].0,
        out@ == spec_carve(v@, kernel),
{
    let ghost mut split_seen: bool = false;
    let mut out: Vec<(u64, u64)> = Vec::new();
    let mut i: usize = 0;
    proof {
        crate::mm::paging::lemma_pow2_sizes();
    }
    while i < v.len()
        invariant
            i <= v@.len(),
            is_pow2(BASE_PAGE as u64),
            kernel.base % (BASE_PAGE as u64) == 0,
            kernel.length % BASE_PAGE == 0,
            kernel.length >= BASE_PAGE,
            kernel.in_bounds(),
            forall|k: int| 0 <= k < v@.len() ==> region_bounded(#[trigger] v@[k]),
            forall|i1: int, j1: int|
                #![trigger v@[i1], v@[j1]]
                0 <= i1 < j1 < v@.len() ==> v@[i1].spec_end() < v@[j1].base,
            out@.len() <= i + if split_seen {
                1int
            } else {
                0int
            },
            forall|k: int| 0 <= k < out@.len() ==> region_fits(#[trigger] out@[k], kernel),
            forall|i1: int, j1: int|
                #![trigger out@[i1], out@[j1]]
                0 <= i1 < j1 < out@.len() ==> out@[i1].0 + out@[i1].1 <= out@[j1].0,
            forall|k: int, j: int|
                #![trigger out@[k], v@[j]]
                0 <= k < out@.len() && i <= j < v@.len() ==> out@[k].0 + out@[k].1 <= v@[j].base,
            split_seen ==> forall|j: int|
                i <= j < v@.len() ==> #[trigger] v@[j].base > kernel.base + kernel.length,
            out@ == spec_carve(v@.take(i as int), kernel),
        decreases v@.len() - i,
    {
        let r = v[i];
        let ghost prev = out@;
        if let Some(a) = r.align::<BASE_PAGE>() {
            // The aligned region is page-aligned on both ends, at least one
            // page long, and contained in the region it came from.
            proof {
                let p = BASE_PAGE as int;
                let b2 = spec_align_up(r.base as int, p);
                lemma_align_down_multiple(r.base + p - 1, p);
                lemma_align_down_multiple(r.length - (b2 - r.base), p);
                assert(a.length as int % p == 0 && a.length > 0);
                lemma_multiple_props(a.length as int, 0, p);
                lemma_multiple_props(a.base as int, a.length as int, p);
            }
            let clipped: Option<Region> = if a.base < LOWERMEM_END {
                if a.end() <= LOWERMEM_END {
                    None
                } else {
                    Some(Region { base: LOWERMEM_END, length: (a.end() - LOWERMEM_END) as usize })
                }
            } else {
                Some(a)
            };
            if let Some(c) = clipped {
                proof {
                    let p = BASE_PAGE as int;
                    if a.base < LOWERMEM_END {
                        lemma_multiple_props(a.base + a.length, LOWERMEM_END as int, p);
                        lemma_multiple_props(
                            (a.base + a.length - LOWERMEM_END) as int,
                            0,
                            p,
                        );
                    }
                    assert(c.base as int % p == 0 && c.length as int % p == 0 && c.length >= p);
                    assert(c.base >= LOWERMEM_END && c.spec_end() <= r.spec_end());
                    lemma_multiple_props(c.base as int, c.length as int, p);
                    lemma_multiple_props(kernel.base as int, kernel.length as int, p);
                    lemma_multiple_props(kernel.base as int, c.base as int, p);
                    lemma_multiple_props(
                        c.base + c.length,
                        kernel.base + kernel.length,
                        p,
                    );
                }
                if Region::are_overlapping(&c, &kernel) {
                    if c.end() <= kernel.end() {
                        if c.base < kernel.base {
                            // The region's tail lies inside the kernel.
                            out.push((c.base, kernel.base - c.base));
                        }
                        // Else the region is wholly consumed by the kernel.
                    } else {
                        if c.base < kernel.base {
                            // The kernel lies strictly inside the region:
                            // split it into a piece before and after.
                            out.push((c.base, kernel.base - c.base));
                            out.push((kernel.end(), c.end() - kernel.end()));
                            proof {
                                split_seen = true;
                            }
                        } else {
                            // The region's head lies inside the kernel.
                            out.push((kernel.end(), c.end() - kernel.end()));
                        }
                    }
                } else {
                    out.push((c.base, c.length as u64));
                }
            }
        }
        proof {
            let t1 = v@.take(i + 1);
            assert(t1.drop_last() =~= v@.take(i as int));
            assert(t1.last() == v@[i as int]);
            assert(out@ =~= prev + spec_carve_one(v@[i as int], kernel));
            assert(out@ == spec_carve(t1, kernel));
        }
        i += 1;
    }
    proof {
        assert(v@.take(v@.len() as int) =~= v@);
    }
    out
}

/// The sole failure of the allocator: no frame can be handed out.
#[derive(Debug, Clone, Copy, PartialEq, Eq, Structural)]
pub enum MemoryError {
    Oom,
}

/// A `(base, length)` pair stored in the allocator is page-aligned, at
/// least one page long, above the low-memory boundary, inside the address
/// space, and disjoint from the kernel's own footprint.
pub open spec fn region_fits(x: (u64, u64), kernel: Region) -> bool {
    &&& x.0 % (BASE_PAGE as u64) == 0
    &&& x.1 % (BASE_PAGE as u64) == 0
    &&& x.1 >= BASE_PAGE
    &&& x.1 <= usize::MAX
    &&& x.0 >= LOWERMEM_END
    &&& x.0 + x.1 <= u64::MAX
    &&& (x.0 + x.1 <= kernel.base || kernel.base + kernel.length <= x.0)
}

/// The byte ranges of `x` and `y` do not intersect.
pub open spec fn frames_disjoint(x: (u64, u64), y: (u64, u64)) -> bool {
    x.0 + x.1 <= y.0 || y.0 + y.1 <= x.0
}

/// Keeps track of usable memory and hands out one 4 KiB frame at a time.
pub struct Memory {
    /// A min-heap of free `(base, length)` regions, ordered by base address.
    mem: BinaryHeap<(u64, u64), Min, REGION_HEAP_SLOTS>,
    /// The total free bytes held, kept in step with the heap.
    free: u64,
    /// The frames already handed out.
    pub given: Ghost<Set<u64>>,
    /// The kernel footprint that construction carved out of free memory.
    pub kernel: Ghost<Region>,
}

impl Memory {
    /// The free regions currently held.
    pub closed spec fn contents(self) -> Multiset<(u64, u64)> {
        heap_contents(self.mem)
    }

    /// The cached byte total agrees with the regions held.
    pub closed spec fn free_cached(self) -> bool {
        self.free as int == sum_lengths(heap_contents(self.mem))
    }

    /// The frames handed out so far.
    pub closed spec fn allocated(self) -> Set<u64> {
        self.given@
    }

    /// The kernel footprint excluded at construction.
    pub closed spec fn kernel_region(self) -> Region {
        self.kernel@
    }

    /// The total number of free bytes held.
    pub open spec fn free_bytes(self) -> int {
        sum_lengths(self.contents())
    }

    /// The allocator invariant: free regions are well-shaped and pairwise
    /// disjoint, and every frame handed out lies strictly below every free
    /// region, so it can never be handed out again.
    pub open spec fn wf(self) -> bool {
        &&& forall|x: (u64, u64)| #[trigger]
            self.contents().count(x) > 0 ==> region_fits(x, self.kernel_region())
                && self.contents().count(x) == 1
        &&& forall|x: (u64, u64), y: (u64, u64)|
            #![trigger self.contents().count(x), self.contents().count(y)]
            self.contents().count(x) > 0 && self.contents().count(y) > 0 && x != y
                ==> frames_disjoint(x, y)
        &&& forall|f: u64, x: (u64, u64)|
            #![trigger self.allocated().contains(f), self.contents().count(x)]
            self.allocated().contains(f) && self.contents().count(x) > 0 ==> f < x.0
        &&& self.contents().len() <= REGION_HEAP_SLOTS
        &&& self.free_cached()
    }

    /// Two distinct free regions have distinct bases.
    proof fn lemma_distinct_bases(self, x: (u64, u64), y: (u64, u64))
        requires
            self.wf(),
            self.contents().count(x) > 0,
            self.contents().count(y) > 0,
            x != y,
        ensures
            x.0 != y.0,
    {
        assert(frames_disjoint(x, y));
    }

    /// Initialise the free memory from the given descriptors and the
    /// kernel's own physical footprint.
    ///
    /// Only usable descriptors are kept.  Touching or overlapping regions are
    /// merged, every region is aligned inward to 4 KiB bounds, anything below
    /// the 1 MiB low-memory boundary is clipped away, and the kernel
    /// footprint is carved out, so any frame retrieved with [`Memory::next`]
    /// is guaranteed to be free.
    pub fn new(descriptors: &Vec<MemoryDescriptor>, kernel: Region) -> (r: Memory)
        requires
            descriptors@.len() <= crate::MAX_MEM_REGIONS,
            forall|i: int|
                0 <= i < descriptors@.len() ==> region_bounded(#[trigger] descriptors@[i].region),
            kernel.base % (BASE_PAGE as u64) == 0,
            kernel.length % BASE_PAGE == 0,
            kernel.length >= BASE_PAGE,
            kernel.in_bounds(),
        ensures
            r.wf(),
            r.allocated() == Set::<u64>::empty(),
            r.kernel_region() == kernel,
            r.contents() == spec_free_pieces(descriptors@, kernel).to_multiset(),
    {
        broadcast use vstd::seq_lib::group_to_multiset_ensures;

        let sorted = sorted_usable(descriptors);
        let coalesced = coalesce_regions(&sorted);
        let pieces = carve_regions(&coalesced, kernel);
        let mut mem = region_heap_new();
        let mut total: u64 = 0;
        let mut k: usize = 0;
        while k < pieces.len()
            invariant
                k <= pieces@.len(),
                pieces@.len() <= REGION_HEAP_SLOTS,
                forall|i: int| 0 <= i < pieces@.len() ==> region_fits(#[trigger] pieces@[i], kernel),
                forall|i: int, j: int|
                    #![trigger pieces@[i], pieces@[j]]
                    0 <= i < j < pieces@.len() ==> pieces@[i].0 + pieces@[i].1 <= pieces@[j].0,
                heap_contents(mem).len() == k,
                heap_contents(mem) == pieces@.take(k as int).to_multiset(),
                total as int == sum_lengths(heap_contents(mem)),
                k > 0 ==> total as int <= pieces@[k - 1].0 + pieces@[k - 1].1,
                forall|x: (u64, u64)| #[trigger]
                    heap_contents(mem).count(x) > 0 ==> heap_contents(mem).count(x) == 1 && exists|
                        i: int,
                    | 0 <= i < k && pieces@[i] == x,
            decreases pieces@.len() - k,
        {
            let piece = pieces[k];
            proof {
                // A repeated piece would have to share its base with an
                // earlier one, but pieces have strictly increasing bases.
                if heap_contents(mem).count(piece) > 0 {
                    let i = choose|i: int| 0 <= i < k && pieces@[i] == piece;
                    assert(pieces@[i].0 + pieces@[i].1 <= pieces@[k as int].0);
                    assert(false);
                }
                lemma_sum_insert(heap_contents(mem), piece);
                assert(pieces@.take(k + 1) =~= pieces@.take(k as int).push(piece));
            }
            let pushed = region_heap_push(&mut mem, piece);
            proof {
                assert(pushed is Ok);
                vstd::seq_lib::to_multiset_build(pieces@.take(k as int), piece);
                assert(heap_contents(mem) == pieces@.take(k + 1).to_multiset());
            }
            total = total + piece.1;
            k += 1;
        }
        proof {
            assert(pieces@.take(pieces@.len() as int) =~= pieces@);
        }
        let r = Memory { mem, free: total, given: Ghost(Set::empty()), kernel: Ghost(kernel) };
        proof {
            assert forall|x: (u64, u64), y: (u64, u64)|
                r.contents().count(x) > 0 && r.contents().count(y) > 0 && x != y implies frames_disjoint(
                x,
                y,
            ) by {
                let i = choose|i: int| 0 <= i < pieces@.len() && pieces@[i] == x;
                let j = choose|j: int| 0 <= j < pieces@.len() && pieces@[j] == y;
            }
        }
        r
    }

    /// Return the length of the region at the top of the heap, 0 if there is
    /// none.
    ///
    /// It does *not* return the total remaining memory!
    pub fn max(&self) -> (r: usize)
        requires
            self.wf(),
        ensures
            self.contents().len() == 0 ==> r == 0,
            self.contents().len() > 0 ==> exists|x: (u64, u64)|
                #![trigger self.contents().count(x)]
                self.contents().count(x) > 0 && is_min_of(self.contents(), x) && r == x.1,
    {
        match region_heap_peek(&self.mem) {
            None => 0,
            Some(x) => x.1 as usize,
        }
    }

    /// The total number of free bytes held, so that a caller can test how
    /// many frames are left before drawing them.
    pub fn free_bytes_total(&self) -> (r: u64)
        requires
            self.wf(),
        ensures
            r as int == self.free_bytes(),
    {
        self.free
    }

    /// Peek the frame that `next` would hand out, without removing it.
    ///
    /// Fails with [`MemoryError::Oom`] exactly when no free region is left.
    pub fn peek(&self) -> (r: Result<u64, MemoryError>)
        requires
            self.wf(),
        ensures
            r matches Err(e) ==> e == MemoryError::Oom && self.contents().len() == 0,
            r matches Ok(f) ==> self.contents().len() > 0 && exists|x: (u64, u64)|
                #![trigger self.contents().count(x)]
                self.contents().count(x) > 0 && is_min_of(self.contents(), x) && f == x.0,
    {
        if self.max() < BASE_PAGE {
            Err(MemoryError::Oom)
        } else {
            match region_heap_peek(&self.mem) {
                Some(x) => Ok(x.0),
                None => Err(MemoryError::Oom),
            }
        }
    }

    /// Return the next free 4 KiB frame.
    ///
    /// Succeeds exactly as long as free memory is left; the frame handed out
    /// is the lowest free address, page-aligned, above the low-memory
    /// boundary, outside the kernel footprint, and never equal to any frame
    /// handed out before.
    pub fn next(&mut self) -> (r: Result<u64, MemoryError>)
        requires
            old(self).wf(),
        ensures
            final(self).wf(),
            final(self).kernel_region() == old(self).kernel_region(),
            r matches Err(e) ==> e == MemoryError::Oom && *final(self) == *old(self) && old(
                self,
            ).contents().len() == 0 && old(self).free_bytes() == 0,
            r matches Ok(f) ==> {
                &&& old(self).contents().len() > 0
                &&& f % (BASE_PAGE as u64) == 0
                &&& f >= LOWERMEM_END
                &&& !(old(self).kernel_region().base <= f < old(self).kernel_region().base + old(
                    self,
                ).kernel_region().length)
                &&& !old(self).allocated().contains(f)
                &&& final(self).allocated() == old(self).allocated().insert(f)
                &&& final(self).free_bytes() == old(self).free_bytes() - BASE_PAGE
                &&& exists|x: (u64, u64)|
                    #![trigger old(self).contents().count(x)]
                    old(self).contents().count(x) > 0 && is_min_of(old(self).contents(), x) && f
                        == x.0 && final(self).contents() == (if x.1 == BASE_PAGE {
                        old(self).contents().remove(x)
                    } else {
                        old(self).contents().remove(x).insert(
                            (((x.0 + BASE_PAGE) as u64, (x.1 - BASE_PAGE) as u64)),
                        )
                    })
            },
    {
        let m = self.max();
        if m < BASE_PAGE {
            // Every region on the heap is at least one page, so this only
            // happens when the heap is empty.
            Err(MemoryError::Oom)
        } else {
            let popped = region_heap_pop(&mut self.mem);
            match popped {
                None => {
                    proof {
                        assert(false);
                    }
                    Err(MemoryError::Oom)
                },
                Some(x) => {
                    proof {
                        lemma_sum_remove(heap_contents(old(self).mem), x);
                        lemma_sum_nonneg(heap_contents(old(self).mem).remove(x));
                    }
                    self.free = self.free - BASE_PAGE as u64;
                    if x.1 > BASE_PAGE as u64 {
                        // Shrink the region by one page and keep the rest.
                        let rest = (x.0 + BASE_PAGE as u64, x.1 - BASE_PAGE as u64);
                        let pushed = region_heap_push(&mut self.mem, rest);
                        proof {
                            assert(pushed is Ok);
                            lemma_sum_insert(
                                heap_contents(old(self).mem).remove(x),
                                rest,
                            );
                            assert(self.free as int == sum_lengths(heap_contents(self.mem)));
                        }
                    } else {
                        proof {
                            assert(x.1 == BASE_PAGE);
                            assert(self.free as int == sum_lengths(heap_contents(self.mem)));
                        }
                    }
                    proof {
                        self.given@ = self.given@.insert(x.0);
                        let oldm = *old(self);
                        let oldc = heap_contents(old(self).mem);
                        // Every recorded frame stays below every free region:
                        // the new frame is the minimum's base, and the shrunk
                        // remainder starts one page above it.
                        assert forall|f: u64, y: (u64, u64)|
                            #![trigger self.allocated().contains(f), self.contents().count(y)]
                            self.allocated().contains(f) && self.contents().count(y)
                                > 0 implies f < y.0 by {
                            assert(oldm.contents().count(x) > 0);
                            if oldc.count(y) > 0 {
                                assert(oldm.contents().count(y) > 0);
                                if y != x {
                                    assert(frames_disjoint(x, y));
                                    assert(tup_le(x, y));
                                    assert(x.0 < y.0);
                                }
                            }
                            assert(y != x);
                            if f == x.0 {
                                if oldc.count(y) == 0 {
                                    assert(y.0 == x.0 + BASE_PAGE);
                                }
                            } else {
                                assert(oldm.allocated().contains(f));
                                assert(f < x.0);
                                if oldc.count(y) == 0 {
                                    assert(y.0 == x.0 + BASE_PAGE);
                                }
                            }
                        }
                    }
                    Ok(x.0)
                },
            }
        }
    }
}

/// One successful `next` call, as visible in its contract: the allocator
/// hands out a frame it never handed out before, records it, and loses one
/// page of free memory.
pub open spec fn hands_out(pre: Memory, f: u64, post: Memory) -> bool {
    &&& !pre.allocated().contains(f)
    &&& post.allocated() == pre.allocated().insert(f)
    &&& post.free_bytes() == pre.free_bytes() - BASE_PAGE
    &&& pre.free_bytes() > 0
}

/// Whatever a run of successful `next` calls hands out stays recorded.
proof fn lemma_allocated_monotone(states: Seq<Memory>, frames: Seq<u64>, i: int, j: int)
    requires
        states.len() == frames.len() + 1,
        forall|k: int|
            0 <= k < frames.len() ==> hands_out(states[k], #[trigger] frames[k], states[k + 1]),
        0 <= i <= j <= frames.len(),
    ensures
        states[i].allocated().subset_of(states[j].allocated()),
    decreases j - i,
{
    if i < j {
        assert(hands_out(states[i], frames[i], states[i + 1]));
        assert(states[i].allocated().subset_of(states[i + 1].allocated()));
        lemma_allocated_monotone(states, frames, i + 1, j);
    }
}

/// Law (uniqueness): over any run of successful `next` calls on one
/// allocator, no two returned frame addresses are equal.
pub proof fn lemma_uniqueness(states: Seq<Memory>, frames: Seq<u64>)
    requires
        states.len() == frames.len() + 1,
        forall|k: int|
            0 <= k < frames.len() ==> hands_out(states[k], #[trigger] frames[k], states[k + 1]),
    ensures
        forall|i: int, j: int|
            #![trigger frames[i], frames[j]]
            0 <= i < j < frames.len() ==> frames[i] != frames[j],
{
    assert forall|i: int, j: int|
        #![trigger frames[i], frames[j]]
        0 <= i < j < frames.len() implies frames[i] != frames[j] by {
        lemma_allocated_monotone(states, frames, i + 1, j);
        assert(states[i + 1].allocated().contains(frames[i]));
        assert(states[j].allocated().contains(frames[i]));
    }
}

/// Law (conservation): every successful `next` call consumes exactly one
/// page of free memory, so when an allocator reaches the out-of-memory
/// state, the number of frames it handed out accounts for all the free
/// bytes it started with.
pub proof fn lemma_conservation(states: Seq<Memory>, frames: Seq<u64>)
    requires
        states.len() == frames.len() + 1,
        forall|k: int|
            0 <= k < frames.len() ==> hands_out(states[k], #[trigger] frames[k], states[k + 1]),
    ensures
        states.last().free_bytes() == states[0].free_bytes() - frames.len() * BASE_PAGE,
        states.last().free_bytes() == 0 ==> frames.len() * BASE_PAGE == states[0].free_bytes(),
    decreases frames.len(),
{
    if frames.len() == 0 {
    } else {
        assert forall|k: int|
            0 <= k < frames.drop_first().len() implies hands_out(
            states.drop_first()[k],
            #[trigger] frames.drop_first()[k],
            states.drop_first()[k + 1],
        ) by {
            assert(hands_out(states[k + 1], frames[k + 1], states[k + 2]));
        }
        lemma_conservation(states.drop_first(), frames.drop_first());
        assert(hands_out(states[0], frames[0], states[1]));
        assert(states.drop_first()[0] == states[1]);
        assert(states.drop_first().last() == states.last());
        assert((frames.len() - 1) * BASE_PAGE == frames.len() * BASE_PAGE - BASE_PAGE)
            by (nonlinear_arith);
    }
}

/// Law (non-overlap): the free regions of a well-formed allocator are
/// pairwise non-overlapping, and each is page-aligned, at least one page,
/// above the 1 MiB low-memory boundary, and outside the kernel footprint.
pub proof fn lemma_non_overlap(m: Memory, x: (u64, u64), y: (u64, u64))
    requires
        m.wf(),
        m.contents().count(x) > 0,
        m.contents().count(y) > 0,
        x != y,
    ensures
        frames_disjoint(x, y),
        region_fits(x, m.kernel_region()),
        region_fits(y, m.kernel_region()),
{
}

} // verus!
