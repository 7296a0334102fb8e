//! The secondary-processor bring-up protocol.

use bootcore::apic::IpiStep;
use bootcore::apic::LocalApic;
use bootcore::boot::collect_apic_info;
use bootcore::boot::MadtEntry;
use bootcore::mm::PerCpuInfo;
use bootcore::mm::desc::Region;
use bootcore::smp::secondary_cpu_infos;
use bootcore::smp::ApStart;
use bootcore::smp::Bootstrap;
use bootcore::smp::BootstrapGdt;
use bootcore::smp::BringupSequencer;
use bootcore::smp::CpuInfo;
use bootcore::smp::DataWrite;
use bootcore::smp::BOOTSTRAP_GDT_BASE_OFFSET;
use bootcore::smp::BOOTSTRAP_GDT_LIMIT;
use bootcore::smp::BOOTSTRAP_GDT_OFFSET;
use bootcore::smp::BOOTSTRAP_GDT_PTR_OFFSET;
use bootcore::smp::BOOTSTRAP_KERNEL_TOP_OFFSET;
use bootcore::smp::BOOTSTRAP_PERCPU_OFFSET;
use bootcore::smp::BOOTSTRAP_STACK_OFFSET;

fn cpus() -> Vec<CpuInfo> {
    vec![
        CpuInfo { apic_id: 1, stack: 0x1000, percpu_offset: 0x10_0000 },
        CpuInfo { apic_id: 2, stack: 0x2000, percpu_offset: 0x20_0000 },
        CpuInfo { apic_id: 3, stack: 0x3000, percpu_offset: 0x30_0000 },
    ]
}

#[test]
fn scenario_c_three_cores_serialized() {
    let apic = LocalApic::XApic(0xfee0_0000);
    let (bootstrap, _) = Bootstrap::new(0x8000, 0x7000);
    let mut seq = BringupSequencer::new(apic, bootstrap, cpus());

    let mut pairs: Vec<ApStart> = Vec::new();
    loop {
        // The previous secondary must have cleared the flag before the next
        // send begins.
        assert!(!seq.busy);
        match seq.start_next() {
            Some(start) => {
                // The flag is observed set for the in-flight secondary.
                assert!(seq.busy);
                pairs.push(start);
                seq.ack_started();
            },
            None => break,
        }
    }

    // Exactly one INIT and STARTUP pair per discovered core, in order.
    assert_eq!(pairs.len(), 3);
    assert!(seq.done());
    for (i, start) in pairs.iter().enumerate() {
        let id = (i + 1) as u32;
        assert_eq!(start.init.low.bits(), 0x4500);
        assert_eq!(start.init.high.bits(), id << 24);
        // The STARTUP vector is the bootstrap page number (0x8000 >> 12).
        assert_eq!(start.startup.low.bits(), 0x4608);
        assert_eq!(start.startup.high.bits(), id << 24);
        // The target's arguments go into the shared data page first.
        assert_eq!(
            start.data_writes,
            vec![
                DataWrite {
                    offset: BOOTSTRAP_STACK_OFFSET,
                    width: 8,
                    value: ((i + 1) * 0x1000) as u64,
                },
                DataWrite {
                    offset: BOOTSTRAP_PERCPU_OFFSET,
                    width: 8,
                    value: ((i + 1) * 0x10_0000) as u64,
                },
            ]
        );
    }
}

#[test]
fn x2apic_destinations_keep_all_bits() {
    let apic = LocalApic::X2Apic;
    let icr = apic.ipi_init(0xdead_beef);
    assert_eq!(icr.high.bits(), 0xdead_beef);
    assert_eq!(icr.low.bits(), 0x4500);
    let icr = apic.ipi_startup(0xdead_beef, 9);
    assert_eq!(icr.high.bits(), 0xdead_beef);
    assert_eq!(icr.low.bits(), 0x4609);
}

#[test]
fn init_deassert_synchronizes_everyone() {
    let apic = LocalApic::XApic(0xfee0_0000);
    let icr = apic.ipi_init_deassert();
    // Level de-assert, level-triggered, to all including self.
    assert_eq!(icr.low.bits(), 0x500 | (1 << 15) | (0b10 << 18));
    assert_eq!(icr.high.bits(), 0);
}

#[test]
fn ipi_write_sequence() {
    let apic = LocalApic::XApic(0xfee0_0000);
    let icr = apic.ipi_init(2);
    let steps = apic.ipi(icr);
    // The legacy controller waits for a previous delivery, writes the high
    // word first (the low write sends the interrupt), then waits again.
    assert_eq!(
        steps,
        vec![
            IpiStep::WaitIdle,
            IpiStep::Write(0x310, 0x0200_0000),
            IpiStep::Write(0x300, 0x4500),
            IpiStep::WaitIdle,
        ]
    );

    let apic = LocalApic::X2Apic;
    let icr = apic.ipi_init(2);
    let steps = apic.ipi(icr);
    // The newer controller's single register write needs no waiting.
    assert_eq!(steps, vec![IpiStep::Write(0x830, 0x0000_0002_0000_4500)]);
}

#[test]
fn bootstrap_data_page_setup() {
    let (bootstrap, writes) = Bootstrap::new(0x8000, 0x123000);
    assert_eq!(bootstrap.vector(), 8);
    let gdt = BootstrapGdt::new();
    // The real-mode startup code finds at offset 0 a ten-byte pointer
    // (16-bit limit, 64-bit base), at offset 10 the descriptor table
    // itself, and at offset 42 the top-table address.
    assert_eq!(
        writes,
        vec![
            DataWrite { offset: BOOTSTRAP_GDT_PTR_OFFSET, width: 2, value: BOOTSTRAP_GDT_LIMIT },
            DataWrite { offset: BOOTSTRAP_GDT_BASE_OFFSET, width: 8, value: 0x8000 + 0x1000 + 10 },
            DataWrite { offset: BOOTSTRAP_GDT_OFFSET, width: 8, value: gdt.null.bits },
            DataWrite { offset: BOOTSTRAP_GDT_OFFSET + 8, width: 8, value: gdt.code32.bits },
            DataWrite { offset: BOOTSTRAP_GDT_OFFSET + 16, width: 8, value: gdt.code64.bits },
            DataWrite { offset: BOOTSTRAP_GDT_OFFSET + 24, width: 8, value: gdt.data.bits },
            DataWrite { offset: BOOTSTRAP_KERNEL_TOP_OFFSET, width: 8, value: 0x12_3000 },
        ]
    );
    assert_eq!(BOOTSTRAP_GDT_LIMIT, 31);
}

#[test]
fn bootstrap_gdt_words() {
    let gdt = BootstrapGdt::new();
    assert_eq!(gdt.null.bits, 0);
    assert_eq!(gdt.code32.bits, 0x000f_9a00_0000_ffff);
    assert_eq!(gdt.code64.bits, 0x002f_9a00_0000_ffff);
    assert_eq!(gdt.data.bits, 0x00cf_9200_0000_ffff);
}

#[test]
fn secondary_cpu_infos_skips_the_boot_processor() {
    let ids = vec![0u32, 5, 7];
    let blocks = vec![
        PerCpuInfo { storage: 0x1000, stack: Region { base: 0x3000, length: 0x4000 } },
        PerCpuInfo { storage: 0x1_1000, stack: Region { base: 0x1_3000, length: 0x4000 } },
        PerCpuInfo { storage: 0x2_1000, stack: Region { base: 0x2_3000, length: 0x4000 } },
    ];
    // The boot processor (the first identity) keeps the first block; each
    // secondary gets the next block, its stack pointer at the stack's top.
    let cpus = secondary_cpu_infos(&ids, &blocks);
    assert_eq!(cpus.len(), 2);
    assert_eq!(cpus[0].apic_id, 5);
    assert_eq!(cpus[0].stack, 0x1_3000 + 0x4000);
    assert_eq!(cpus[0].percpu_offset, 0x1_1000);
    assert_eq!(cpus[1].apic_id, 7);
    assert_eq!(cpus[1].stack, 0x2_3000 + 0x4000);
}

#[test]
fn madt_fold_collects_boot_facts() {
    let entries = vec![
        MadtEntry::ProcessorLocalApic { flags: 1, apic_id: 0 },
        MadtEntry::ProcessorLocalApic { flags: 0, apic_id: 1 },
        MadtEntry::LocalApicAddressOverride(0xfee0_1000),
        MadtEntry::IoApic(0xfec0_0000),
        MadtEntry::Other,
        MadtEntry::ProcessorLocalX2Apic { flags: 1, x2apic_id: 7 },
    ];
    let info = collect_apic_info(0xfee0_0000, &entries);
    // The override wins; disabled processors are skipped; the first usable
    // processor is the boot processor.
    assert_eq!(info.local_apic_address, 0xfee0_1000);
    assert_eq!(info.apic_ids, vec![0, 7]);
    assert_eq!(info.num_cpus(), 2);
    assert_eq!(info.bsp_id(), 0);
    assert_eq!(info.io_apics, vec![0xfec0_0000]);
}
