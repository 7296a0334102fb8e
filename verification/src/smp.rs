//! Bringing up secondary processors.
//!
//! The boot processor prepares a shared bootstrap region below 1 MiB,
//! writes each target's stack and storage arguments into its data page,
//! and issues an INIT followed by a STARTUP inter-processor interrupt whose
//! vector is the page number of the bootstrap code.  Because the data page
//! is a single shared scratch region, only one secondary may be in flight
//! at a time; a busy flag, set by the boot processor before it sends and
//! cleared by the secondary as its first high-level action, enforces that
//! serialization.
//!
//! This module computes every value the protocol writes and sequences the
//! protocol itself.  Performing the stores, the memory fence, the register
//! writes and the spin on the flag is the hardware layer's task.

use vstd::prelude::*;

use crate::apic::spec_destination_high;
use crate::apic::spec_init_low;
use crate::apic::spec_startup_low;
use crate::apic::LocalApic;
use crate::apic::registers::Icr;
use crate::desc::spec_user_descriptor_bits;
use crate::desc::UserDescriptor;
use crate::desc::UserDescriptorType;
use crate::desc::ACCESS_KERNEL_USR;
use crate::desc::CODE_EX_READ;
use crate::desc::DATA_READ_WRITE;
use crate::desc::FLAGS_DB;
use crate::desc::FLAGS_G;
use crate::desc::FLAGS_L;
use crate::mm::PerCpuInfo;

verus! {

/// Offset of the data page inside the bootstrap region.
pub const BOOTSTRAP_DATA_OFFSET: u64 = 0x1000;

/// Offset of the descriptor-table pointer inside the data page.  The
/// pointer is ten bytes: a 16-bit limit, then the table's 64-bit physical
/// base address.
pub const BOOTSTRAP_GDT_PTR_OFFSET: u64 = 0;

/// Offset of the base-address half of the descriptor-table pointer.
pub const BOOTSTRAP_GDT_BASE_OFFSET: u64 = 2;

/// Offset of the bootstrap descriptor table inside the data page.
pub const BOOTSTRAP_GDT_OFFSET: u64 = 10;

/// The descriptor-table limit: the table's byte size (four 8-byte words)
/// minus one, as the load instruction expects.
pub const BOOTSTRAP_GDT_LIMIT: u64 = 31;

/// Offset of the physical top-table address inside the data page.
pub const BOOTSTRAP_KERNEL_TOP_OFFSET: u64 = 42;

/// Offset of the target's stack pointer inside the data page.
pub const BOOTSTRAP_STACK_OFFSET: u64 = 50;

/// Offset of the target's private storage address inside the data page.
pub const BOOTSTRAP_PERCPU_OFFSET: u64 = 58;

/// Bootstrap descriptor table, used by a starting secondary processor to
/// enable 32-bit protected mode and reach 64-bit mode.
#[derive(Debug, Clone, Copy, PartialEq, Eq, Structural)]
pub struct BootstrapGdt {
    pub null: UserDescriptor,
    pub code32: UserDescriptor,
    pub code64: UserDescriptor,
    pub data: UserDescriptor,
}

impl BootstrapGdt {
    /// The one table this module ever builds, as a value for contracts:
    /// a null word, flat 32-bit and 64-bit code segments, and a flat
    /// writable data segment.
    pub open spec fn new_words() -> BootstrapGdt {
        BootstrapGdt {
            null: (UserDescriptor { bits: 0 }),
            code32: (UserDescriptor {
                bits: spec_user_descriptor_bits(
                    0,
                    0xfffff,
                    UserDescriptorType::Code(CODE_EX_READ),
                    ACCESS_KERNEL_USR,
                    0,
                ),
            }),
            code64: (UserDescriptor {
                bits: spec_user_descriptor_bits(
                    0,
                    0xfffff,
                    UserDescriptorType::Code(CODE_EX_READ),
                    ACCESS_KERNEL_USR,
                    FLAGS_L,
                ),
            }),
            data: (UserDescriptor {
                bits: spec_user_descriptor_bits(
                    0,
                    0xfffff,
                    UserDescriptorType::Data(DATA_READ_WRITE),
                    ACCESS_KERNEL_USR,
                    FLAGS_G | FLAGS_DB,
                ),
            }),
        }
    }

    pub fn new() -> (r: Self)
        ensures
            r == BootstrapGdt::new_words(),
            r.null.bits == 0,
            r.code32.bits == spec_user_descriptor_bits(
                0,
                0xfffff,
                UserDescriptorType::Code(CODE_EX_READ),
                ACCESS_KERNEL_USR,
                0,
            ),
            r.code64.bits == spec_user_descriptor_bits(
                0,
                0xfffff,
                UserDescriptorType::Code(CODE_EX_READ),
                ACCESS_KERNEL_USR,
                FLAGS_L,
            ),
            r.data.bits == spec_user_descriptor_bits(
                0,
                0xfffff,
                UserDescriptorType::Data(DATA_READ_WRITE),
                ACCESS_KERNEL_USR,
                FLAGS_G | FLAGS_DB,
            ),
    {
        Self {
            null: UserDescriptor::null(),
            code32: UserDescriptor::new(
                0,
                0xfffff,
                UserDescriptorType::Code(CODE_EX_READ),
                ACCESS_KERNEL_USR,
                0,
            ),
            code64: UserDescriptor::new(
                0,
                0xfffff,
                UserDescriptorType::Code(CODE_EX_READ),
                ACCESS_KERNEL_USR,
                FLAGS_L,
            ),
            data: UserDescriptor::new(
                0,
                0xfffff,
                UserDescriptorType::Data(DATA_READ_WRITE),
                ACCESS_KERNEL_USR,
                FLAGS_G | FLAGS_DB,
            ),
        }
    }
}

/// What one core needs to start: its interrupt-controller identity, the top
/// of its private stack, and the start of its private storage block.
#[derive(Debug, Clone, Copy, PartialEq, Eq, Structural)]
pub struct CpuInfo {
    pub apic_id: u32,
    pub stack: u64,
    pub percpu_offset: u64,
}

/// Pair each secondary processor with its private block, skipping the boot
/// processor: the first identity in `apic_ids` is the boot processor's and
/// keeps the first block, so secondary `i` gets block `i + 1`.  A starting
/// processor's stack pointer is the top of its block's stack region.
pub fn secondary_cpu_infos(apic_ids: &Vec<u32>, blocks: &Vec<PerCpuInfo>) -> (r: Vec<CpuInfo>)
    requires
        apic_ids@.len() >= 1,
        apic_ids@.len() <= blocks@.len(),
        forall|i: int| 0 <= i < blocks@.len() ==> #[trigger] blocks@[i].stack.in_bounds(),
    ensures
        r@.len() == apic_ids@.len() - 1,
        forall|i: int|
            0 <= i < r@.len() ==> r@[i] == (CpuInfo {
                apic_id: apic_ids@[i + 1],
                stack: (blocks@[i + 1].stack.base + blocks@[i + 1].stack.length) as u64,
                percpu_offset: blocks@[i + 1].storage,
            }),
{
    let mut r: Vec<CpuInfo> = Vec::new();
    let mut i: usize = 1;
    while i < apic_ids.len()
        invariant
            1 <= i <= apic_ids@.len(),
            apic_ids@.len() <= blocks@.len(),
            forall|k: int| 0 <= k < blocks@.len() ==> #[trigger] blocks@[k].stack.in_bounds(),
            r@.len() == i - 1,
            forall|k: int|
                0 <= k < r@.len() ==> r@[k] == (CpuInfo {
                    apic_id: apic_ids@[k + 1],
                    stack: (blocks@[k + 1].stack.base + blocks@[k + 1].stack.length) as u64,
                    percpu_offset: blocks@[k + 1].storage,
                }),
        decreases apic_ids@.len() - i,
    {
        let block = &blocks[i];
        proof {
            assert(blocks@[i as int].stack.in_bounds());
        }
        r.push(
            CpuInfo {
                apic_id: apic_ids[i],
                stack: block.stack.base + block.stack.length as u64,
                percpu_offset: block.storage,
            },
        );
        i = i + 1;
    }
    r
}

/// The bootstrap region used to start secondary processors.
///
/// It is mapped below 1 MiB at the physical address the legacy real-mode
/// startup vector implies; the code page is followed by a data page whose
/// layout the real-mode startup code expects.
#[derive(Debug, Clone, Copy, PartialEq, Eq, Structural)]
pub struct Bootstrap {
    /// The physical address at which the region is mapped.
    pub phys: u32,
    /// The physical address of the top-level table a starting processor
    /// loads to switch into long mode.
    pub kernel_top: u64,
}

/// One store into the bootstrap data page: `value`'s low `width` bytes are
/// written little-endian at `offset`.
#[derive(Debug, Clone, Copy, PartialEq, Eq, Structural)]
pub struct DataWrite {
    pub offset: u64,
    pub width: u64,
    pub value: u64,
}

/// The stores that initialise the bootstrap data page for a region mapped
/// at physical address `phys`, in page order: the descriptor-table pointer
/// (16-bit limit, then the table's physical base address), the four
/// descriptor words of `gdt`, and the top-table address the startup code
/// loads.
pub open spec fn spec_bootstrap_data_writes(
    phys: u32,
    gdt: BootstrapGdt,
    kernel_top: u64,
) -> Seq<DataWrite> {
    seq![
        (DataWrite { offset: BOOTSTRAP_GDT_PTR_OFFSET, width: 2, value: BOOTSTRAP_GDT_LIMIT }),
        (DataWrite {
            offset: BOOTSTRAP_GDT_BASE_OFFSET,
            width: 8,
            value: ((phys as u64) + BOOTSTRAP_DATA_OFFSET + BOOTSTRAP_GDT_OFFSET) as u64,
        }),
        (DataWrite { offset: BOOTSTRAP_GDT_OFFSET, width: 8, value: gdt.null.bits }),
        (DataWrite { offset: (BOOTSTRAP_GDT_OFFSET + 8) as u64, width: 8, value: gdt.code32.bits }),
        (DataWrite { offset: (BOOTSTRAP_GDT_OFFSET + 16) as u64, width: 8, value: gdt.code64.bits }),
        (DataWrite { offset: (BOOTSTRAP_GDT_OFFSET + 24) as u64, width: 8, value: gdt.data.bits }),
        (DataWrite { offset: BOOTSTRAP_KERNEL_TOP_OFFSET, width: 8, value: kernel_top }),
    ]
}

impl Bootstrap {
    /// Set up a bootstrap region mapped at `phys`, whose startup code will
    /// load `kernel_top`.  Returns the region handle and the stores that
    /// initialise its data page: the ten-byte descriptor-table pointer at
    /// offset 0 (limit, then the physical address of the table at offset
    /// 10), the bootstrap descriptor table itself, and the top-table
    /// address.
    pub fn new(phys: u32, kernel_top: u64) -> (r: (Bootstrap, Vec<DataWrite>))
        ensures
            r.0.phys == phys,
            r.0.kernel_top == kernel_top,
            r.1@ == spec_bootstrap_data_writes(phys, BootstrapGdt::new_words(), kernel_top),
    {
        let gdt = BootstrapGdt::new();
        let mut w: Vec<DataWrite> = Vec::new();
        w.push(DataWrite { offset: BOOTSTRAP_GDT_PTR_OFFSET, width: 2, value: BOOTSTRAP_GDT_LIMIT });
        w.push(
            DataWrite {
                offset: BOOTSTRAP_GDT_BASE_OFFSET,
                width: 8,
                value: (phys as u64) + BOOTSTRAP_DATA_OFFSET + BOOTSTRAP_GDT_OFFSET,
            },
        );
        w.push(DataWrite { offset: BOOTSTRAP_GDT_OFFSET, width: 8, value: gdt.null.bits });
        w.push(DataWrite { offset: BOOTSTRAP_GDT_OFFSET + 8, width: 8, value: gdt.code32.bits });
        w.push(DataWrite { offset: BOOTSTRAP_GDT_OFFSET + 16, width: 8, value: gdt.code64.bits });
        w.push(DataWrite { offset: BOOTSTRAP_GDT_OFFSET + 24, width: 8, value: gdt.data.bits });
        w.push(DataWrite { offset: BOOTSTRAP_KERNEL_TOP_OFFSET, width: 8, value: kernel_top });
        proof {
            assert(w@ =~= spec_bootstrap_data_writes(phys, BootstrapGdt::new_words(), kernel_top));
        }
        (Bootstrap { phys, kernel_top }, w)
    }

    /// The STARTUP vector implied by the region's physical address: its
    /// page number.
    pub fn vector(&self) -> (r: u8)
        ensures
            r == (self.phys >> 12) as u8,
    {
        (self.phys >> 12) as u8
    }
}

/// Everything one attempt to start a secondary processor writes, in order:
/// the argument stores into the shared data page (which must be fenced
/// before signalling), then the INIT command, then the STARTUP command.
#[derive(Debug, Clone)]
pub struct ApStart {
    pub data_writes: Vec<DataWrite>,
    pub init: Icr,
    pub startup: Icr,
}

/// The bring-up sequencer: starts the secondary processors one at a time.
///
/// `Idle → write target arguments, fence → send INIT → send STARTUP
/// (vector = bootstrap page) → spin on the busy flag → Idle`.  The busy
/// flag is set here immediately before the send and cleared by the
/// secondary itself once it has claimed its identity, so at most one
/// secondary is ever in flight.
#[derive(Clone)]
pub struct BringupSequencer {
    /// The boot processor's interrupt controller, which sends the commands.
    pub apic: LocalApic,
    /// The shared bootstrap region.
    pub bootstrap: Bootstrap,
    /// The processors still to start, in order; the boot processor itself
    /// is not among them.
    pub cpus: Vec<CpuInfo>,
    /// How many of `cpus` have been issued their INIT and STARTUP pair.
    pub started: usize,
    /// The shared busy flag, as this side last drove or observed it.
    pub busy: bool,
    /// The identities of the processors started so far, in issue order.
    pub issued: Ghost<Seq<u32>>,
}

impl BringupSequencer {
    pub open spec fn wf(self) -> bool {
        &&& self.started <= self.cpus@.len()
        &&& self.issued@.len() == self.started
        &&& forall|i: int| 0 <= i < self.started ==> self.issued@[i] == self.cpus@[i].apic_id
        &&& (self.busy ==> self.started > 0)
    }

    /// A sequencer with no processor started yet and the flag clear.
    pub fn new(apic: LocalApic, bootstrap: Bootstrap, cpus: Vec<CpuInfo>) -> (r: Self)
        ensures
            r.wf(),
            r.apic == apic,
            r.bootstrap == bootstrap,
            r.cpus == cpus,
            r.started == 0,
            !r.busy,
            r.issued@ == Seq::<u32>::empty(),
    {
        BringupSequencer {
            apic,
            bootstrap,
            cpus,
            started: 0,
            busy: false,
            issued: Ghost(Seq::empty()),
        }
    }

    /// True once every secondary processor has been issued its start.
    pub fn done(&self) -> (r: bool)
        ensures
            r == (self.started == self.cpus@.len()),
    {
        self.started == self.cpus.len()
    }

    /// Start the next secondary processor.
    ///
    /// Only legal while the busy flag is clear — the previous processor
    /// must have claimed its identity first — so the INIT/STARTUP pairs of
    /// different processors never interleave.  Sets the flag and hands back
    /// exactly what must reach the hardware: the argument stores (to be
    /// fenced), then the INIT command, then the STARTUP command whose
    /// vector is the bootstrap page number.  Returns nothing once all
    /// processors are started.
    pub fn start_next(&mut self) -> (r: Option<ApStart>)
        requires
            old(self).wf(),
            !old(self).busy,
        ensures
            final(self).wf(),
            final(self).apic == old(self).apic,
            final(self).bootstrap == old(self).bootstrap,
            final(self).cpus == old(self).cpus,
            r is None ==> *final(self) == *old(self) && old(self).started == old(
                self,
            ).cpus@.len(),
            r matches Some(s) ==> {
                &&& old(self).started < old(self).cpus@.len()
                &&& final(self).started == old(self).started + 1
                &&& final(self).busy
                &&& final(self).issued@ == old(self).issued@.push(
                    old(self).cpus@[old(self).started as int].apic_id,
                )
                &&& s.data_writes@ == seq![
                    (DataWrite {
                        offset: BOOTSTRAP_STACK_OFFSET,
                        width: 8,
                        value: old(self).cpus@[old(self).started as int].stack,
                    }),
                    (DataWrite {
                        offset: BOOTSTRAP_PERCPU_OFFSET,
                        width: 8,
                        value: old(self).cpus@[old(self).started as int].percpu_offset,
                    }),
                ]
                &&& s.init.low.bits == spec_init_low()
                &&& s.init.high.bits == spec_destination_high(
                    old(self).apic,
                    old(self).cpus@[old(self).started as int].apic_id,
                )
                &&& s.startup.low.bits == spec_startup_low(
                    (old(self).bootstrap.phys >> 12) as u8,
                )
                &&& s.startup.high.bits == spec_destination_high(
                    old(self).apic,
                    old(self).cpus@[old(self).started as int].apic_id,
                )
            },
    {
        if self.started == self.cpus.len() {
            return None;
        }
        let target = self.cpus[self.started];

        let mut data_writes: Vec<DataWrite> = Vec::new();
        data_writes.push(DataWrite { offset: BOOTSTRAP_STACK_OFFSET, width: 8, value: target.stack });
        data_writes.push(
            DataWrite { offset: BOOTSTRAP_PERCPU_OFFSET, width: 8, value: target.percpu_offset },
        );
        proof {
            assert(data_writes@ =~= seq![
                (DataWrite { offset: BOOTSTRAP_STACK_OFFSET, width: 8, value: target.stack }),
                (DataWrite {
                    offset: BOOTSTRAP_PERCPU_OFFSET,
                    width: 8,
                    value: target.percpu_offset,
                }),
            ]);
        }

        let init = self.apic.ipi_init(target.apic_id);
        let startup = self.apic.ipi_startup(target.apic_id, self.bootstrap.vector());

        self.busy = true;
        self.started = self.started + 1;
        proof {
            self.issued@ = self.issued@.push(target.apic_id);
        }

        Some(ApStart { data_writes, init, startup })
    }

    /// Record that the started processor has cleared the busy flag: it has
    /// claimed its identity, so the shared data page may be reused.
    pub fn ack_started(&mut self)
        requires
            old(self).wf(),
            old(self).busy,
        ensures
            final(self).wf(),
            *final(self) == (BringupSequencer { busy: false, ..*old(self) }),
    {
        self.busy = false;
    }
}

/// Law (serialization): a run of the bring-up protocol issues exactly one
/// INIT and STARTUP pair per processor, in list order — after `n` rounds of
/// `start_next` and acknowledgement, the issued identities are exactly the
/// first `n` processors.
pub proof fn lemma_bringup_serialized(s: BringupSequencer)
    requires
        s.wf(),
    ensures
        s.issued@.len() == s.started,
        forall|i: int, j: int|
            #![trigger s.issued@[i], s.issued@[j]]
            0 <= i < j < s.issued@.len() && (forall|a: int, b: int|
                #![trigger s.cpus@[a].apic_id, s.cpus@[b].apic_id]
                0 <= a < b < s.cpus@.len() ==> s.cpus@[a].apic_id != s.cpus@[b].apic_id)
                ==> s.issued@[i] != s.issued@[j],
{
}

} // verus!
