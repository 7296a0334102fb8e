//! The kernel's global descriptor table and task-state segment.

use vstd::prelude::*;

use crate::desc::spec_system_descriptor_bits;
use crate::desc::spec_user_descriptor_bits;
use crate::desc::SystemDescriptor;
use crate::desc::Tss;
use crate::desc::UserDescriptor;
use crate::desc::UserDescriptorType;
use crate::desc::ACCESS_DPL_3;
use crate::desc::ACCESS_KERNEL_USR;
use crate::desc::ACCESS_P;
use crate::desc::ACCESS_S;
use crate::desc::CODE_EX_ONLY;
use crate::desc::DATA_READ_WRITE;
use crate::desc::FLAGS_L;

verus! {

/// Interrupt-stack-table slot used for non-maskable interrupts.
pub const NMI_IST_INDEX: u8 = 1;

/// Interrupt-stack-table slot used for double faults.
pub const DF_IST_INDEX: u8 = 2;

/// Interrupt-stack-table slot used for machine-check exceptions.
pub const MC_IST_INDEX: u8 = 3;

/// Size in bytes of the I/O permission bitmap (one bit per port).
pub const IOPB_BYTES: usize = 8192;

/// The offset of the I/O permission bitmap inside [`KernelTss`]: the bitmap
/// sits directly after the 104-byte task-state segment header.
pub const KERNEL_TSS_IOPB_OFFSET: u16 = 104;

/// The per-processor task-state segment together with its I/O permission
/// bitmap.
#[derive(Debug, Clone)]
pub struct KernelTss {
    pub tss: Tss,
    pub bitmap: Vec<u8>,
}

impl KernelTss {
    /// The bitmap has one slot per byte plus the terminating byte the
    /// manuals require.
    pub open spec fn wf(self) -> bool {
        self.bitmap@.len() == IOPB_BYTES + 1
    }

    /// An empty task-state segment: all stacks zero, every I/O port
    /// allowed, and the mandatory trailing `0xff` byte in place.
    pub fn zero() -> (r: Self)
        ensures
            r.wf(),
            r.tss.rsp0 == 0,
            r.tss.io_map_base == KERNEL_TSS_IOPB_OFFSET,
            forall|i: int| 0 <= i < IOPB_BYTES ==> r.bitmap@[i] == 0,
            r.bitmap@[IOPB_BYTES as int] == 0xff,
    {
        let mut bitmap: Vec<u8> = Vec::new();
        let mut i: usize = 0;
        while i < IOPB_BYTES
            invariant
                i <= IOPB_BYTES,
                bitmap@.len() == i,
                forall|j: int| 0 <= j < i ==> bitmap@[j] == 0,
            decreases IOPB_BYTES - i,
        {
            bitmap.push(0u8);
            i += 1;
        }
        // Last entry must be 0xff according to the manuals.
        bitmap.push(0xffu8);

        Self { tss: Tss::new(0, KERNEL_TSS_IOPB_OFFSET), bitmap }
    }
}

/// The kernel global descriptor table.
#[derive(Debug, Clone, Copy, PartialEq, Eq, Structural)]
pub struct KernelGdt {
    pub null: UserDescriptor,
    pub kernel_code: UserDescriptor,
    pub kernel_data: UserDescriptor,
    pub user_code_32: UserDescriptor,
    pub user_code_64: UserDescriptor,
    pub user_data: UserDescriptor,
    pub kernel_tss: SystemDescriptor,
}

impl KernelGdt {
    /// The fixed boot-time descriptor table: 64-bit kernel code and data in
    /// slots 1 and 2, user segments in slots 3 to 5, and an empty task
    /// descriptor in slot 6 until [`KernelGdt::set_tss`] fills it.
    pub fn new() -> (r: Self)
        ensures
            r.null.bits == 0,
            r.kernel_code.bits == spec_user_descriptor_bits(
                0,
                0,
                UserDescriptorType::Code(CODE_EX_ONLY),
                ACCESS_KERNEL_USR,
                FLAGS_L,
            ),
            r.kernel_data.bits == spec_user_descriptor_bits(
                0,
                0,
                UserDescriptorType::Data(DATA_READ_WRITE),
                ACCESS_KERNEL_USR,
                FLAGS_L,
            ),
            r.user_code_32.bits == spec_user_descriptor_bits(
                0,
                0,
                UserDescriptorType::Code(0),
                0,
                0,
            ),
            r.user_code_64.bits == spec_user_descriptor_bits(
                0,
                0,
                UserDescriptorType::Code(CODE_EX_ONLY),
                ACCESS_P | ACCESS_S | ACCESS_DPL_3,
                FLAGS_L,
            ),
            r.user_data.bits == spec_user_descriptor_bits(
                0,
                0,
                UserDescriptorType::Data(DATA_READ_WRITE),
                ACCESS_P | ACCESS_S | ACCESS_DPL_3,
                FLAGS_L,
            ),
            r.kernel_tss.bits == 0,
    {
        KernelGdt {
            null: UserDescriptor::null(),
            kernel_code: UserDescriptor::new(
                0,
                0,
                UserDescriptorType::Code(CODE_EX_ONLY),
                ACCESS_KERNEL_USR,
                FLAGS_L,
            ),
            kernel_data: UserDescriptor::new(
                0,
                0,
                UserDescriptorType::Data(DATA_READ_WRITE),
                ACCESS_KERNEL_USR,
                FLAGS_L,
            ),
            user_code_32: UserDescriptor::new(
                0,
                0,
                UserDescriptorType::Code(0),
                0,
                0,
            ),
            user_code_64: UserDescriptor::new(
                0,
                0,
                UserDescriptorType::Code(CODE_EX_ONLY),
                ACCESS_P | ACCESS_S | ACCESS_DPL_3,
                FLAGS_L,
            ),
            user_data: UserDescriptor::new(
                0,
                0,
                UserDescriptorType::Data(DATA_READ_WRITE),
                ACCESS_P | ACCESS_S | ACCESS_DPL_3,
                FLAGS_L,
            ),
            kernel_tss: SystemDescriptor::null(),
        }
    }

    /// Install the task descriptor built for this processor's task-state
    /// segment.
    pub fn set_tss(&mut self, tss: SystemDescriptor)
        ensures
            *final(self) == (KernelGdt { kernel_tss: tss, ..*old(self) }),
    {
        self.kernel_tss = tss;
    }
}

} // verus!
