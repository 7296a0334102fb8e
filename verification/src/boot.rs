//! Folding the platform's interrupt-controller table into boot facts.
//!
//! The walk over the firmware tables themselves happens outside this crate
//! (they are read through raw physical memory); it hands over one plain
//! entry per table record.  This module makes the decisions: which address
//! override wins, which processors are usable, and which I/O controllers
//! exist.  The first processor listed is the boot processor by convention.

use vstd::prelude::*;

use crate::linker;

verus! {

/// One record of the platform's interrupt-controller table, reduced to the
/// plain values the boot sequence reads.
#[derive(Debug, Clone, Copy, PartialEq, Eq, Structural)]
pub enum MadtEntry {
    /// The controller's registers live at this address, overriding the
    /// table header's default.
    LocalApicAddressOverride(u64),
    /// A processor with its flags word and controller identity.
    ProcessorLocalApic { flags: u32, apic_id: u32 },
    /// A processor reported through the wider identity scheme.
    ProcessorLocalX2Apic { flags: u32, x2apic_id: u32 },
    /// An I/O interrupt controller at this register address.
    IoApic(u32),
    /// A record the boot sequence does not read.
    Other,
}

/// The flags word of a processor record that marks it usable.
pub const MADT_CPU_ENABLED: u32 = 1;

/// The controller facts the boot sequence needs: the register address, the
/// usable processors in table order (the first is the boot processor), and
/// the I/O controllers.
#[derive(Debug, Clone, PartialEq, Eq)]
pub struct ApicInfo {
    pub local_apic_address: u64,
    pub apic_ids: Vec<u32>,
    pub io_apics: Vec<u32>,
}

impl ApicInfo {
    /// The boot processor's identity: the first listed.
    pub fn bsp_id(&self) -> (r: u32)
        requires
            self.apic_ids@.len() > 0,
        ensures
            r == self.apic_ids@[0],
    {
        self.apic_ids[0]
    }

    /// How many usable processors were discovered.
    pub fn num_cpus(&self) -> (r: usize)
        ensures
            r == self.apic_ids@.len(),
    {
        self.apic_ids.len()
    }
}

/// The register address after folding the table: the last override wins,
/// else the default from the table header.
pub open spec fn spec_apic_address(default: u64, s: Seq<MadtEntry>) -> u64
    decreases s.len(),
{
    if s.len() == 0 {
        default
    } else {
        match s.last() {
            MadtEntry::LocalApicAddressOverride(a) => a,
            _ => spec_apic_address(default, s.drop_last()),
        }
    }
}

/// The usable processor identities, in table order, capped at the supported
/// processor count: a processor is kept exactly when its flags word equals
/// the enabled value.
pub open spec fn spec_cpu_ids(s: Seq<MadtEntry>) -> Seq<u32>
    decreases s.len(),
{
    if s.len() == 0 {
        Seq::empty()
    } else {
        let prev = spec_cpu_ids(s.drop_last());
        match s.last() {
            MadtEntry::ProcessorLocalApic { flags, apic_id } => if prev.len() < linker::MAX_CPUS
                && flags == MADT_CPU_ENABLED {
                prev.push(apic_id)
            } else {
                prev
            },
            MadtEntry::ProcessorLocalX2Apic { flags, x2apic_id } => if prev.len()
                < linker::MAX_CPUS && flags == MADT_CPU_ENABLED {
                prev.push(x2apic_id)
            } else {
                prev
            },
            _ => prev,
        }
    }
}

/// The I/O controller addresses, in table order, capped at the supported
/// controller count.
pub open spec fn spec_io_apics(s: Seq<MadtEntry>) -> Seq<u32>
    decreases s.len(),
{
    if s.len() == 0 {
        Seq::empty()
    } else {
        let prev = spec_io_apics(s.drop_last());
        match s.last() {
            MadtEntry::IoApic(a) => if prev.len() < linker::MAX_IOAPICS {
                prev.push(a)
            } else {
                prev
            },
            _ => prev,
        }
    }
}

/// Fold the interrupt-controller table into the boot facts: the register
/// address (last override wins), the usable processors in order, and the
/// I/O controllers in order.
pub fn collect_apic_info(default_address: u64, entries: &Vec<MadtEntry>) -> (r: ApicInfo)
    ensures
        r.local_apic_address == spec_apic_address(default_address, entries@),
        r.apic_ids@ == spec_cpu_ids(entries@),
        r.io_apics@ == spec_io_apics(entries@),
        r.apic_ids@.len() <= linker::MAX_CPUS,
        r.io_apics@.len() <= linker::MAX_IOAPICS,
{
    let mut local_apic_address = default_address;
    let mut apic_ids: Vec<u32> = Vec::new();
    let mut io_apics: Vec<u32> = Vec::new();

    let mut i: usize = 0;
    while i < entries.len()
        invariant
            i <= entries@.len(),
            local_apic_address == spec_apic_address(default_address, entries@.take(i as int)),
            apic_ids@ == spec_cpu_ids(entries@.take(i as int)),
            io_apics@ == spec_io_apics(entries@.take(i as int)),
            apic_ids@.len() <= linker::MAX_CPUS,
            io_apics@.len() <= linker::MAX_IOAPICS,
        decreases entries@.len() - i,
    {
        proof {
            assert(entries@.take(i + 1).drop_last() =~= entries@.take(i as int));
            assert(entries@.take(i + 1).last() == entries@[i as int]);
        }
        match entries[i] {
            MadtEntry::LocalApicAddressOverride(address) => {
                // If an override is present, it must be used instead.
                local_apic_address = address;
            },
            MadtEntry::ProcessorLocalApic { flags, apic_id } => {
                if apic_ids.len() < linker::MAX_CPUS && flags == MADT_CPU_ENABLED {
                    apic_ids.push(apic_id);
                }
            },
            MadtEntry::ProcessorLocalX2Apic { flags, x2apic_id } => {
                if apic_ids.len() < linker::MAX_CPUS && flags == MADT_CPU_ENABLED {
                    apic_ids.push(x2apic_id);
                }
            },
            MadtEntry::IoApic(address) => {
                if io_apics.len() < linker::MAX_IOAPICS {
                    io_apics.push(address);
                }
            },
            MadtEntry::Other => {},
        }
        i += 1;
    }
    proof {
        assert(entries@.take(entries@.len() as int) =~= entries@);
    }
    ApicInfo { local_apic_address, apic_ids, io_apics }
}

} // verus!
