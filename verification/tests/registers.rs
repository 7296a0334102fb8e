//! Register word formats: the interrupt command register, the controller
//! identification words, redirection entries, and segment descriptors.

use bootcore::apic::registers::DeliveryMode;
use bootcore::apic::registers::DeliveryStatus;
use bootcore::apic::registers::DestinationMode;
use bootcore::apic::registers::DestinationShorthand;
use bootcore::apic::registers::DivideConfiguration;
use bootcore::apic::registers::Divisor;
use bootcore::apic::registers::ErrorStatus;
use bootcore::apic::registers::Icr;
use bootcore::apic::registers::IcrHigh;
use bootcore::apic::registers::IcrLow;
use bootcore::apic::registers::Level;
use bootcore::apic::registers::TriggerMode;
use bootcore::apic::registers::Version;
use bootcore::desc::GateDescriptor;
use bootcore::desc::GateDescriptorType;
use bootcore::desc::SystemDescriptorType;
use bootcore::desc::Tss;
use bootcore::desc::UserDescriptor;
use bootcore::desc::UserDescriptorType;
use bootcore::desc::ACCESS_KERNEL_USR;
use bootcore::desc::ACCESS_P;
use bootcore::desc::CODE_EX_ONLY;
use bootcore::desc::FLAGS_L;
use bootcore::gdt::KernelGdt;
use bootcore::gdt::KernelTss;
use bootcore::gdt::IOPB_BYTES;
use bootcore::idt::Entry;
use bootcore::idt::GateType;
use bootcore::idt::InterruptDescriptorTable;
use bootcore::interrupts::idt::GateDescriptor as InterruptGate;
use bootcore::interrupts::idt::GateOptions;
use bootcore::interrupts::idt::GateType as InterruptGateType;
use bootcore::interrupts::Vector;
use bootcore::ioapic::registers::Arbitration;
use bootcore::ioapic::registers::DeliveryMode as IoDeliveryMode;
use bootcore::ioapic::registers::DestinationMode as IoDestinationMode;
use bootcore::ioapic::registers::InterruptPinPolarity;
use bootcore::ioapic::registers::IoApicId;
use bootcore::ioapic::registers::LogicalDestination;
use bootcore::ioapic::registers::RedirectionTableEntry;
use bootcore::ioapic::registers::RedirectionTableEntryHigh;
use bootcore::ioapic::registers::RedirectionTableEntryLow;
use bootcore::ioapic::registers::TriggerMode as IoTriggerMode;
use bootcore::ioapic::registers::Version as IoVersion;

#[test]
fn icr_low_round_trip() {
    let mut low = IcrLow::new(
        0x42,
        DeliveryMode::Fixed,
        DestinationMode::Logical,
        Level::Assert,
        TriggerMode::Level,
        DestinationShorthand::AllExludingSelf,
    );
    assert_eq!(low.vector(), 0x42);
    assert_eq!(low.delivery_mode(), DeliveryMode::Fixed);
    assert_eq!(low.destination_mode(), DestinationMode::Logical);
    assert_eq!(low.level(), Level::Assert);
    assert_eq!(low.trigger_mode(), TriggerMode::Level);
    assert_eq!(low.destination_shorthand(), DestinationShorthand::AllExludingSelf);
    assert_eq!(low.delivery_status(), DeliveryStatus::Idle);

    low.set_vector(0x10);
    low.set_delivery_mode(DeliveryMode::NMI);
    low.set_destination_mode(DestinationMode::Physical);
    low.set_level(Level::Deassert);
    low.set_trigger_mode(TriggerMode::Edge);
    low.set_destination_shorthand(DestinationShorthand::Myself);
    assert_eq!(low.vector(), 0x10);
    assert_eq!(low.delivery_mode(), DeliveryMode::NMI);
    assert_eq!(low.destination_mode(), DestinationMode::Physical);
    assert_eq!(low.level(), Level::Deassert);
    assert_eq!(low.trigger_mode(), TriggerMode::Edge);
    assert_eq!(low.destination_shorthand(), DestinationShorthand::Myself);
}

#[test]
fn icr_known_command_words() {
    // The classic INIT and STARTUP command encodings.
    let init = IcrLow::new(
        0,
        DeliveryMode::INIT,
        DestinationMode::Physical,
        Level::Assert,
        TriggerMode::Edge,
        DestinationShorthand::NoShorthand,
    );
    assert_eq!(init.bits(), 0x4500);
    let sipi = IcrLow::new(
        8,
        DeliveryMode::StartUp,
        DestinationMode::Physical,
        Level::Assert,
        TriggerMode::Edge,
        DestinationShorthand::NoShorthand,
    );
    assert_eq!(sipi.bits(), 0x4608);
}

#[test]
fn icr_high_destinations() {
    assert_eq!(IcrHigh::new().bits(), 0);
    let h = IcrHigh::new_xapic_destination(0x12);
    assert_eq!(h.bits(), 0x1200_0000);
    assert_eq!(h.xapic_destination(), 0x12);
    let h = IcrHigh::new_x2apic_destination(0xdead_beef);
    assert_eq!(h.x2apic_destination(), 0xdead_beef);
    let mut h = IcrHigh::new();
    h.set_xapic_destination(3);
    assert_eq!(h.xapic_destination(), 3);
    h.set_x2apic_destination(77);
    assert_eq!(h.x2apic_destination(), 77);
}

#[test]
fn icr_combines_both_words() {
    let icr = Icr::new(
        IcrLow::from_bits_unchecked(0x4500),
        IcrHigh::from_bits_unchecked(0x0100_0000),
    );
    assert_eq!(icr.bits(), 0x0100_0000_0000_4500);
    let split = Icr::from_bits64_unchecked(0x0100_0000_0000_4500);
    assert_eq!(split.low.bits(), 0x4500);
    assert_eq!(split.high.bits(), 0x0100_0000);
}

#[test]
fn version_register_fields() {
    let v = Version::from_bits_unchecked(0x0100_0514);
    assert_eq!(v.version(), 0x14);
    assert_eq!(v.max_lvt_entry(), 5);
    assert!(v.eoi_broadcast_supression());
}

#[test]
fn error_status_bits() {
    let e = ErrorStatus::from_bits_unchecked(0b1010_1010);
    assert!(!e.send_checksum_error());
    assert!(e.receive_checksum_error());
    assert!(!e.send_accept_error());
    assert!(e.receive_accept_error());
    assert!(!e.redirectable_ipi());
    assert!(e.send_illegal_vector());
    assert!(!e.receive_illegal_vector());
    assert!(e.illegal_register_access());
    assert_eq!(e.bits(), 0b1010_1010);
}

#[test]
fn divide_configuration_round_trip() {
    let mut d = DivideConfiguration::new(Divisor::By16);
    assert_eq!(d.divisor(), Divisor::By16);
    d.set_divisor(Divisor::By1);
    assert_eq!(d.divisor(), Divisor::By1);
    assert_eq!(d.bits(), 0b1011);
    d.set_divisor(Divisor::By2);
    assert_eq!(d.divisor(), Divisor::By2);
}

#[test]
fn ioapic_identification() {
    let mut id = IoApicId::new(0xb);
    assert_eq!(id.ioapic_id(), 0xb);
    assert_eq!(id.bits(), 0xb00_0000);
    id.set_ioapic_id(0x5);
    assert_eq!(id.ioapic_id(), 0x5);
    let v = IoVersion::from_bits_unchecked(0x0017_0011);
    assert_eq!(v.version(), 0x11);
    assert_eq!(v.max_redir_entry(), 0x17);
    let a = Arbitration::from_bits_unchecked(0x0700_0000);
    assert_eq!(a.ioapic_id(), 7);
    assert_eq!(a.bits(), 0x0700_0000);
}

#[test]
fn redirection_entry_round_trip() {
    let mut low = RedirectionTableEntryLow::new(
        0x31,
        IoDeliveryMode::LowestPriority,
        IoDestinationMode::Logical,
        InterruptPinPolarity::LowActive,
        IoTriggerMode::Level,
        true,
    );
    assert_eq!(low.vector(), 0x31);
    assert_eq!(low.delivery_mode(), IoDeliveryMode::LowestPriority);
    assert_eq!(low.destination_mode(), IoDestinationMode::Logical);
    assert_eq!(low.int_pin_polarity(), InterruptPinPolarity::LowActive);
    assert_eq!(low.trigger_mode(), IoTriggerMode::Level);
    assert!(low.masked());
    assert!(!low.remote_irr());

    low.set_masked(false);
    assert!(!low.masked());
    low.set_vector(0x20);
    assert_eq!(low.vector(), 0x20);
    low.set_delivery_mode(IoDeliveryMode::Fixed);
    assert_eq!(low.delivery_mode(), IoDeliveryMode::Fixed);
    low.set_trigger_mode(IoTriggerMode::Edge);
    assert_eq!(low.trigger_mode(), IoTriggerMode::Edge);
    low.set_int_pin_polarity(InterruptPinPolarity::HighActive);
    assert_eq!(low.int_pin_polarity(), InterruptPinPolarity::HighActive);
    low.set_destination_mode(IoDestinationMode::Physical);
    assert_eq!(low.destination_mode(), IoDestinationMode::Physical);

    let mut high = RedirectionTableEntryHigh::new(LogicalDestination::ApicID(0x9));
    assert_eq!(high.bits(), 0x0900_0000);
    assert_eq!(
        high.logical_destination(IoDestinationMode::Physical),
        LogicalDestination::ApicID(0x9)
    );
    high.set_logical_destination(LogicalDestination::Group(0xaa));
    assert_eq!(
        high.logical_destination(IoDestinationMode::Logical),
        LogicalDestination::Group(0xaa)
    );

    let e = RedirectionTableEntry::from_bits_unchecked(0x1_0031, 0x0900_0000);
    assert_eq!(e.low.bits(), 0x1_0031);
    assert_eq!(e.high.bits(), 0x0900_0000);
}

#[test]
fn user_descriptor_known_words() {
    // The 64-bit kernel code descriptor.
    let d = UserDescriptor::new(
        0,
        0,
        UserDescriptorType::Code(CODE_EX_ONLY),
        ACCESS_KERNEL_USR,
        FLAGS_L,
    );
    assert_eq!(d.bits, 0x0020_9800_0000_0000);
    let mut d = UserDescriptor::null();
    assert_eq!(d.bits, 0);
    d.set_limit(0xf_ffff);
    assert_eq!(d.bits, 0x000f_0000_0000_ffff);
    d.set_base(0x1234_5678);
    assert_eq!(d.bits, 0x001f_0034_5678_ffff);
    d.set_access(ACCESS_P);
    assert_eq!((d.bits >> 44) & 0xf, ACCESS_P as u64);
    d.set_type(UserDescriptorType::Data(2));
    assert_eq!((d.bits >> 40) & 0xf, 2);
}

#[test]
fn gate_descriptor_known_word() {
    let g = GateDescriptor::new(
        0x1234_5678_9abc_def0,
        8,
        GateDescriptorType::Trap,
        ACCESS_P,
        1,
    );
    assert_eq!(g.bits, 0x1234_5678_9abc_8f01_0008_def0);
    let mut g = GateDescriptor::null();
    g.set_offset(0xffff_ffff_8010_0000);
    g.set_selector(0x18);
    g.set_ist(2);
    g.set_type(GateDescriptorType::Interrupt);
    g.set_access(ACCESS_P);
    assert_eq!(g.bits & 0xffff, 0x0000);
    assert_eq!((g.bits >> 16) & 0xffff, 0x18);
    assert_eq!((g.bits >> 32) & 0b111, 2);
    assert_eq!((g.bits >> 40) & 0xf, 0xe);
    assert_eq!((g.bits >> 44) & 0xf, ACCESS_P as u128);
    assert_eq!((g.bits >> 64) as u64, 0xffff_ffff);
}

#[test]
fn type_encodings() {
    assert_eq!(SystemDescriptorType::Tss.bits(), 0x9);
    assert_eq!(SystemDescriptorType::Ldt.bits(), 0x2);
    assert_eq!(SystemDescriptorType::BusyTss.bits(), 0xb);
    assert_eq!(GateDescriptorType::Call.bits(), 0xc);
    assert_eq!(GateDescriptorType::Interrupt.bits(), 0xe);
    assert_eq!(GateDescriptorType::Trap.bits(), 0xf);
    assert_eq!(UserDescriptorType::Code(10).bits(), 10);
    assert_eq!(UserDescriptorType::Data(2).bits(), 2);
}

#[test]
fn kernel_gdt_layout() {
    let gdt = KernelGdt::new();
    assert_eq!(gdt.null.bits, 0);
    assert_eq!(gdt.kernel_code.bits, 0x0020_9800_0000_0000);
    assert_eq!(gdt.kernel_tss.bits, 0);
    let mut gdt = gdt;
    let tss = bootcore::desc::SystemDescriptor::new(
        0x1000,
        103,
        SystemDescriptorType::Tss,
        bootcore::desc::ACCESS_KERNEL_SYS,
        bootcore::desc::FLAGS_G,
    );
    gdt.set_tss(tss);
    assert_eq!(gdt.kernel_tss, tss);
}

#[test]
fn kernel_tss_bitmap() {
    let t = KernelTss::zero();
    assert_eq!(t.bitmap.len(), IOPB_BYTES + 1);
    assert_eq!(t.bitmap[IOPB_BYTES], 0xff);
    assert_eq!(t.bitmap[0], 0);
    assert_eq!(t.tss.io_map_base, 104);
    assert_eq!(t.tss.rsp0, 0);
    let t2 = Tss::new(0xdead_0000, 104);
    assert_eq!(t2.rsp0, 0xdead_0000);
    assert_eq!(t2.ist1, 0);
}

#[test]
fn early_idt_entries() {
    let table = InterruptDescriptorTable::new();
    assert_eq!(table.entries.len(), 256);
    let mut e = Entry::new();
    e.set_offset(0x1234_5678_9abc_def0);
    assert_eq!(e.offset_low, 0xdef0);
    assert_eq!(e.offset_middle, 0x9abc);
    assert_eq!(e.offset_high, 0x1234_5678);
    e.set_selector(8);
    assert_eq!(e.selector, 8);
    e.set_ist(0b1010);
    assert_eq!(e.ist, 0b010);
    e.set_p(true);
    assert_eq!(e.flags & 0x80, 0x80);
    e.set_type(GateType::Trap);
    assert_eq!(e.flags & 0xf, 0xf);
    e.set_dpl(3);
    assert_eq!((e.flags >> 5) & 3, 3);
    e.set_p(false);
    assert_eq!(e.flags & 0x80, 0);
}

#[test]
fn interrupt_gate_options() {
    let mut o = GateOptions::new();
    assert!(!o.p());
    o.set_p(true);
    assert!(o.p());
    o.set_dpl(3);
    assert_eq!(o.dpl(), 3);
    o.set_type(InterruptGateType::Interrupt);
    assert!(matches!(o.typ(), InterruptGateType::Interrupt));
    o.set_type(InterruptGateType::Trap);
    assert!(matches!(o.typ(), InterruptGateType::Trap));
    o.set_ist(5);
    assert_eq!(o.ist(), 5);
    assert!(o.p());

    let mut g = InterruptGate::new();
    g.set_offset(0xffff_ffff_8000_1000);
    assert_eq!(g.offset(), 0xffff_ffff_8000_1000);
    g.set_selector(0x10);
    assert_eq!(g.selector(), 0x10);
    g.set_options(o);
    assert_eq!(g.options().ist(), 5);
}

#[test]
fn vector_numbers() {
    assert_eq!(Vector::DivideByZeroError.number(), 0);
    assert_eq!(Vector::DoubleFault.number(), 6);
    assert_eq!(Vector::InvalidTSS.number(), 10);
    assert_eq!(Vector::PageFault.number(), 14);
    assert_eq!(Vector::SecurityException.number(), 30);
}
