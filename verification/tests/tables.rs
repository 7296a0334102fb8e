//! The table builders and the boot-time mapping passes.

use bootcore::linker;
use bootcore::linker::KernelLayout;
use bootcore::mm::desc::MemoryDescriptor;
use bootcore::mm::desc::MemoryKind;
use bootcore::mm::desc::Region;
use bootcore::mm::map::Flags;
use bootcore::mm::map::Mapper;
use bootcore::mm::map::PdMapper;
use bootcore::mm::memory::Memory;
use bootcore::mm::map_range;
use bootcore::mm::KernelTables;
use bootcore::mm::TableAddrs;
use bootcore::mm::paging::align_down;
use bootcore::mm::paging::align_up;
use bootcore::mm::paging::is_aligned;
use bootcore::mm::paging::is_canonical;
use bootcore::mm::paging::num_tables;
use bootcore::mm::paging::pd_index;
use bootcore::mm::paging::pdpt_index;
use bootcore::mm::paging::pml4_index;
use bootcore::mm::paging::pt_index;
use bootcore::mm::paging::PD;
use bootcore::mm::paging::PDE;
use bootcore::mm::paging::PML4;
use bootcore::mm::paging::PT;
use bootcore::mm::paging::PTE;
use bootcore::mm::paging::ENTRY_P;
use bootcore::mm::paging::ENTRY_PS;
use bootcore::mm::paging::ENTRY_RW;
use bootcore::vm::virt_to_phys;
use bootcore::vm::AddressSpace;
use bootcore::vm::KernelMap;

fn table_addrs() -> TableAddrs {
    let vo = linker::VIRT_OFFSET;
    TableAddrs {
        top: vo,
        kernel_pdpt: vo + 0x1000,
        kern_pd: vo + 0x2000,
        kern_pts: vo + 0x3000,
        kdev_pd: vo + 0x11_0000,
        kdev_pt: vo + 0x11_1000,
        percpu_pds: vo + 0x11_2000,
        percpu_pts: vo + 0x11_3000,
        phys_pdpts: vo + 0x20_0000,
    }
}

fn layout() -> KernelLayout {
    let vo = linker::VIRT_OFFSET;
    KernelLayout {
        text_start: vo + 0x20_0000,
        text_end: vo + 0x50_0000,
        rodata_start: vo + 0x50_0000,
        rodata_end: vo + 0x50_1000,
        data_start: vo + 0x60_0000,
        bss_end: vo + 0x60_1234,
        percpu_start: vo + 0x70_0000,
        percpu_end: vo + 0x70_2000,
        boot16_start: 0x7000,
        boot16_end: 0x7800,
        image_end: vo + 0x80_0000,
    }
}

#[test]
fn alignment_helpers() {
    assert_eq!(align_up::<0x1000>(0), 0);
    assert_eq!(align_up::<0x1000>(1), 0x1000);
    assert_eq!(align_up::<0x1000>(0x1000), 0x1000);
    assert_eq!(align_down::<0x1000>(0x1fff), 0x1000);
    assert_eq!(align_down::<0x1000>(0x2000), 0x2000);
    assert!(is_aligned::<0x1000>(0x3000));
    assert!(!is_aligned::<0x1000>(0x3001));
    // Aligning up always lands on an aligned address.
    assert!(is_aligned::<0x200000>(align_up::<0x200000>(0x123456)));
    assert_eq!(
        align_down::<0x200000>(align_up::<0x200000>(0x400000)),
        align_up::<0x200000>(0x400000)
    );
    assert_eq!(num_tables::<0x1000>(0x2001), 3);
    assert_eq!(num_tables::<0x1000>(0x2000), 2);
}

#[test]
fn index_extraction() {
    assert_eq!(pml4_index(linker::KERNEL_START), 511);
    assert_eq!(pml4_index(linker::PHYS_OFFSET), 256);
    assert_eq!(pdpt_index(linker::VIRT_OFFSET), 510);
    assert_eq!(pd_index(linker::VIRT_OFFSET), 0);
    assert_eq!(pd_index(linker::VIRT_OFFSET + 0x20_0000), 1);
    assert_eq!(pt_index(linker::VIRT_OFFSET + 0x7000), 7);
    assert!(is_canonical(linker::VIRT_OFFSET));
    assert!(is_canonical(0x1000));
    assert!(!is_canonical(0x1000_0000_0000_0000));
}

#[test]
fn entry_round_trips() {
    let e = PDE::new(0x20_0000, ENTRY_P | ENTRY_PS);
    assert_eq!(e.bits, 0x20_0081);
    assert_eq!(e.address(), 0x20_0000);
    assert_eq!(e.flags(), ENTRY_P | ENTRY_PS);
    let mut e = PTE::new(0x3000, ENTRY_P);
    assert_eq!(e.frame(), 0x3000);
    e.set_flags(ENTRY_P | ENTRY_RW);
    assert_eq!(e.flags(), ENTRY_P | ENTRY_RW);
    assert_eq!(e.frame(), 0x3000);
    e.set_frame(0x5000);
    assert_eq!(e.frame(), 0x5000);
    assert_eq!(e.flags(), ENTRY_P | ENTRY_RW);
}

#[test]
fn flag_policies() {
    let mut pd = PD::zero();
    let mapper = PdMapper { link_offset: linker::VIRT_OFFSET };
    // Init on an empty slot applies the flags; Enable adds; Disable clears;
    // Assign overwrites; Preserve keeps.
    mapper.map(&mut pd, 3, 0x20_0000, Flags::Init(ENTRY_P));
    assert_eq!(pd.table[3].flags(), ENTRY_P);
    mapper.map(&mut pd, 3, 0x20_0000, Flags::Init(ENTRY_P | ENTRY_RW));
    assert_eq!(pd.table[3].flags(), ENTRY_P);
    mapper.map(&mut pd, 3, 0x20_0000, Flags::Enable(ENTRY_RW));
    assert_eq!(pd.table[3].flags(), ENTRY_P | ENTRY_RW);
    mapper.map(&mut pd, 3, 0x20_0000, Flags::Disable(ENTRY_P));
    assert_eq!(pd.table[3].flags(), ENTRY_RW);
    mapper.map(&mut pd, 3, 0x20_0000, Flags::Assign(ENTRY_P | ENTRY_PS));
    assert_eq!(pd.table[3].flags(), ENTRY_P | ENTRY_PS);
    mapper.map(&mut pd, 3, 0x40_0000, Flags::Preserve);
    assert_eq!(pd.table[3].flags(), ENTRY_P | ENTRY_PS);
    assert_eq!(pd.table[3].address(), 0x40_0000);
}

#[test]
fn scenario_b_three_megabytes() {
    // Mapping a 3 MiB section whose start is 2 MiB-aligned produces one
    // huge-page entry for the first 2 MiB and 4 KiB entries for the rest.
    let vo = linker::VIRT_OFFSET;
    let mut pd = PD::zero();
    let mut pts: Vec<PT> = (0..linker::NUM_KERN_PTS).map(|_| PT::zero()).collect();
    let mapper = PdMapper { link_offset: vo };
    let pts_vbase = vo + linker::KERNEL_SIZE as u64;

    map_range(&mapper, &mut pd, &mut pts, pts_vbase, vo + 0x20_0000, vo + 0x50_0000, false, false);

    // Slot 1: one huge page for [2 MiB, 4 MiB).
    assert_eq!(pd.table[1].bits, 0x20_0000 | (ENTRY_P | ENTRY_PS));
    // Slot 2: a pointer to fallback table 2 for the remaining 1 MiB.
    let pt2_phys = linker::KERNEL_SIZE as u64 + 2 * 0x1000;
    assert_eq!(pd.table[2].bits, pt2_phys | (ENTRY_P | ENTRY_RW));
    // 256 pages of 4 KiB mappings, nothing more.
    let present = pts[2].table.iter().filter(|e| e.bits & ENTRY_P != 0).count();
    assert_eq!(present, 256);
    assert_eq!(pts[2].table[0].bits, 0x40_0000 | ENTRY_P);
    assert_eq!(pts[2].table[255].bits, (0x40_0000 + 255 * 0x1000) | ENTRY_P);
    assert_eq!(pts[2].table[256].bits, 0);
    // Untouched slots keep their entries.
    assert_eq!(pd.table[0].bits, 0);
    assert_eq!(pd.table[3].bits, 0);
}

#[test]
fn kernel_tables_boot_flow() {
    let addrs = table_addrs();
    let layout = layout();
    let mut tables = KernelTables::new();

    tables.init(&addrs, &layout);
    // The kernel half points at the kernel's middle-high table.
    assert_eq!(tables.top.table[511].bits, 0x1000 | (ENTRY_P | ENTRY_RW));
    // The physical window: one middle-high table of 1 GiB pages.
    assert_eq!(tables.top.table[256].bits, 0x20_0000 | ENTRY_P);
    assert_eq!(
        tables.phys_pdpts[0].table[5].bits,
        (5u64 << 30) | (ENTRY_P | ENTRY_PS | ENTRY_RW | 0x8000_0000_0000_0000)
    );
    // The kernel window: text got its first huge page.
    assert_eq!(tables.kern_pd.table[1].bits, 0x20_0000 | (ENTRY_P | ENTRY_PS));

    // The device window.
    tables.map_apic(&addrs, 0xfee0_0000, &vec![0xfec0_0000u32]);
    assert_eq!(tables.kdev_pt.table[0].bits, 0xfee0_001b);
    assert_eq!(tables.kdev_pt.table[1].bits, 0xfec0_001b);

    // The bootstrap window: three pages at the startup vector's location,
    // and the zero-and-copy command that fills them.
    let bootcode = tables.setup_ap_bootcode(&addrs, &layout, 8);
    assert_eq!(bootcode.dst, 0x8000);
    assert_eq!(bootcode.zero_len, 0x3000);
    assert_eq!(bootcode.src, 0x7000);
    assert_eq!(bootcode.copy_len, 0x800);
    for i in 0..3u64 {
        assert_eq!(
            tables.kern_pts[0].table[(7 + i) as usize].bits,
            (0x8000 + i * 0x1000) | (ENTRY_P | ENTRY_RW)
        );
    }

    // Per-core regions come out of the allocator, one frame per page.
    let descriptors = vec![MemoryDescriptor {
        region: Region { base: 0x10_0000, length: 0x1000_0000 },
        kind: MemoryKind::Usable,
    }];
    let mut memory = Memory::new(&descriptors, Region { base: 0x100_0000, length: 0x20_0000 });
    let before = {
        let mut probe = Memory::new(&descriptors, Region { base: 0x100_0000, length: 0x20_0000 });
        let mut n = 0;
        while probe.next().is_ok() {
            n += 1;
        }
        n
    };
    let info = tables.allocate_percpus(&addrs, &mut memory, 3, 0x2000);
    assert_eq!(info.len(), 3);
    // Stride: 2 storage frames, a guard, 4 stack frames, a guard.
    for (i, core) in info.iter().enumerate() {
        let stride = 2 * 0x1000 + 0x1000 + 4 * 0x1000 + 0x1000;
        assert_eq!(core.storage, linker::PERCPU_OFFSET + (i as u64) * stride);
        assert_eq!(core.stack.base, core.storage + 2 * 0x1000 + 0x1000);
        assert_eq!(core.stack.length, linker::STACK_SIZE);
    }
    let mut after = 0;
    while memory.next().is_ok() {
        after += 1;
    }
    // Exactly one frame per mapped page was consumed.
    assert_eq!(before - after, 3 * 6);
}

#[test]
fn mapper_descend_writes_physical_addresses() {
    let vo = linker::VIRT_OFFSET;
    let mut top = PML4::zero();
    let mapper = Mapper::new(vo);
    mapper.pdpt(&mut top, 511, vo + 0x1000, Flags::Assign(ENTRY_P | ENTRY_RW));
    // The entry holds the table's physical address: its link address minus
    // the link offset.
    assert_eq!(top.table[511].address(), 0x1000);
    assert_eq!(top.table[511].flags(), ENTRY_P | ENTRY_RW);
}

#[test]
fn address_space_links_kernel_map() {
    let map = KernelMap::empty();
    assert_eq!(map.num_aspaces, 0);
    assert_eq!(map.kernel_lvl_3().table[0].bits, 0);

    let mut space = AddressSpace { top: PML4::zero(), apic_id: 0 };
    space.init(virt_to_phys(linker::VIRT_OFFSET + 0x1000), 7);
    assert_eq!(space.apic_id(), 7);
    assert_eq!(space.top.table[pml4_index(linker::KERNEL_START)].bits, 0x1000 | ENTRY_P);
}
