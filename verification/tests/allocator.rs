//! The region allocator: construction from descriptors, frame hand-out
//! order, exhaustion, and conservation counts.

use bootcore::mm::desc::MemoryDescriptor;
use bootcore::mm::desc::MemoryKind;
use bootcore::mm::desc::Region;
use bootcore::mm::memory::Memory;
use bootcore::mm::memory::MemoryError;

fn descriptors_a() -> Vec<MemoryDescriptor> {
    vec![
        MemoryDescriptor {
            region: Region { base: 0, length: 0x10_0000 },
            kind: MemoryKind::Usable,
        },
        MemoryDescriptor {
            region: Region { base: 0x10_0000, length: 0x1000_0000 },
            kind: MemoryKind::Usable,
        },
    ]
}

fn kernel_a() -> Region {
    Region { base: 0x100_0000, length: 0x20_0000 }
}

#[test]
fn scenario_a_regions() {
    let memory = Memory::new(&descriptors_a(), kernel_a());
    // The lowest free region is [0x100000, 0x1000000): 0xf00000 bytes.
    assert_eq!(memory.max(), 0xf0_0000);
    assert_eq!(memory.peek(), Ok(0x10_0000));
}

#[test]
fn scenario_a_frames_skip_low_memory_and_kernel() {
    let mut memory = Memory::new(&descriptors_a(), kernel_a());
    let mut count: usize = 0;
    let mut last: Option<u64> = None;
    loop {
        match memory.next() {
            Ok(frame) => {
                assert!(frame >= 0x10_0000, "frame below the low-memory hole");
                assert!(
                    frame + 0x1000 <= 0x100_0000 || frame >= 0x120_0000,
                    "frame inside the kernel footprint"
                );
                assert!(frame < 0x1010_0000);
                // Frames come out in strictly increasing order.
                if let Some(prev) = last {
                    assert!(frame > prev);
                }
                last = Some(frame);
                count += 1;
            },
            Err(MemoryError::Oom) => break,
        }
    }
    // Conservation: [0x100000, 0x1000000) and [0x1200000, 0x10100000)
    // hold exactly this many 4 KiB frames.
    assert_eq!(count, 65024);
    assert_eq!(memory.max(), 0);
    assert_eq!(memory.peek(), Err(MemoryError::Oom));
}

#[test]
fn free_byte_total_counts_down() {
    let mut memory = Memory::new(&descriptors_a(), kernel_a());
    // [0x100000, 0x1000000) and [0x1200000, 0x10100000).
    assert_eq!(memory.free_bytes_total(), 0xf0_0000 + 0xef0_0000);
    memory.next().unwrap();
    assert_eq!(memory.free_bytes_total(), 0xf0_0000 + 0xef0_0000 - 0x1000);
}

#[test]
fn empty_descriptors_are_out_of_memory() {
    let mut memory = Memory::new(&Vec::new(), kernel_a());
    assert_eq!(memory.next(), Err(MemoryError::Oom));
    assert_eq!(memory.peek(), Err(MemoryError::Oom));
    assert_eq!(memory.max(), 0);
}

#[test]
fn unusable_descriptors_are_ignored() {
    let descriptors = vec![
        MemoryDescriptor {
            region: Region { base: 0x20_0000, length: 0x10_0000 },
            kind: MemoryKind::Reserved,
        },
        MemoryDescriptor {
            region: Region { base: 0x40_0000, length: 0x2000 },
            kind: MemoryKind::Usable,
        },
        MemoryDescriptor {
            region: Region { base: 0x60_0000, length: 0x2000 },
            kind: MemoryKind::AcpiNvs,
        },
    ];
    let mut memory = Memory::new(&descriptors, kernel_a());
    assert_eq!(memory.next(), Ok(0x40_0000));
    assert_eq!(memory.next(), Ok(0x40_1000));
    assert_eq!(memory.next(), Err(MemoryError::Oom));
}

#[test]
fn unsorted_overlapping_descriptors_coalesce() {
    // Handed over out of order and overlapping; the allocator sorts and
    // merges them.
    let descriptors = vec![
        MemoryDescriptor {
            region: Region { base: 0x30_0000, length: 0x20_0000 },
            kind: MemoryKind::Usable,
        },
        MemoryDescriptor {
            region: Region { base: 0x20_0000, length: 0x18_0000 },
            kind: MemoryKind::Usable,
        },
    ];
    let mut memory = Memory::new(&descriptors, Region { base: 0x4000_0000, length: 0x20_0000 });
    // One merged region [0x200000, 0x500000).
    assert_eq!(memory.max(), 0x30_0000);
    let mut count = 0;
    while memory.next().is_ok() {
        count += 1;
    }
    assert_eq!(count, 0x30_0000 / 0x1000);
}

#[test]
fn unaligned_regions_shrink_inward() {
    let descriptors = vec![MemoryDescriptor {
        region: Region { base: 0x20_0800, length: 0x3000 },
        kind: MemoryKind::Usable,
    }];
    let mut memory = Memory::new(&descriptors, kernel_a());
    // Aligned inward to [0x201000, 0x203000).
    assert_eq!(memory.next(), Ok(0x20_1000));
    assert_eq!(memory.next(), Ok(0x20_2000));
    assert_eq!(memory.next(), Err(MemoryError::Oom));
}

#[test]
fn region_merge_and_overlap() {
    let x = Region { base: 0x1000, length: 0x1000 };
    let y = Region { base: 0x2000, length: 0x1000 };
    let z = Region { base: 0x4000, length: 0x1000 };
    // Touching regions count as overlapping so they can be merged.
    assert!(Region::are_overlapping(&x, &y));
    assert!(!Region::are_overlapping(&x, &z));
    assert_eq!(Region::merge(&x, &y), Some(Region { base: 0x1000, length: 0x2000 }));
    assert_eq!(Region::merge(&x, &z), None);
    assert_eq!(x.end(), 0x2000);
}

#[test]
fn region_align_shrinks_or_discards() {
    let r = Region { base: 0x1800, length: 0x3000 };
    assert_eq!(r.align::<0x1000>(), Some(Region { base: 0x2000, length: 0x2000 }));
    let small = Region { base: 0x1800, length: 0x1000 };
    assert_eq!(small.align::<0x1000>(), None);
    // A region of exactly one aligned unit is kept, not discarded.
    let unit = Region { base: 0x2000, length: 0x1000 };
    assert_eq!(unit.align::<0x1000>(), Some(unit));
}

#[test]
fn descriptor_usability() {
    let d = MemoryDescriptor {
        region: Region { base: 0, length: 1 },
        kind: MemoryKind::Usable,
    };
    assert!(d.is_usable());
    let d = MemoryDescriptor { kind: MemoryKind::Defective, ..d };
    assert!(!d.is_usable());
}
