//! Long-mode segment descriptors.
//!
//! The interpretation of the descriptor fields changed with 64-bit mode and
//! some descriptors grew to 16 bytes.  The access byte documented in the
//! manuals is treated here as a separate 4-bit access part and a 4-bit type
//! part (see [UserDescriptorType], [SystemDescriptorType] and
//! [GateDescriptorType]).

use vstd::prelude::*;

verus! {

/// Access bit: when set, the descriptor refers to a user segment.
pub const ACCESS_S: u8 = 1;

/// Ring 0 privilege level for the segment the descriptor refers to.
pub const ACCESS_DPL_0: u8 = 0;

/// Ring 1 privilege level for the segment the descriptor refers to.
pub const ACCESS_DPL_1: u8 = 2;

/// Ring 2 privilege level for the segment the descriptor refers to.
pub const ACCESS_DPL_2: u8 = 4;

/// Ring 3 privilege level for the segment the descriptor refers to.
pub const ACCESS_DPL_3: u8 = 6;

/// Access bit: mark the segment referenced by this descriptor present.
pub const ACCESS_P: u8 = 8;

/// Access bits for a kernel user-segment descriptor.
pub const ACCESS_KERNEL_USR: u8 = ACCESS_S | ACCESS_DPL_0 | ACCESS_P;

/// Access bits for a kernel system-segment descriptor.
pub const ACCESS_KERNEL_SYS: u8 = ACCESS_DPL_0 | ACCESS_P;

/// Descriptor flag: available to software.
pub const FLAGS_AVL: u8 = 1;

/// Descriptor flag: 64-bit code segment (code descriptors only).
pub const FLAGS_L: u8 = 2;

/// Descriptor flag: default operand size; zero for 64-bit code.
pub const FLAGS_DB: u8 = 4;

/// Descriptor flag: limit granularity; ignored in long mode.
pub const FLAGS_G: u8 = 8;

/// Data-segment type bit: set by the processor when the segment is loaded.
pub const DATA_ACCESSED: u8 = 1;

/// A read-only data segment.
pub const DATA_READ_ONLY: u8 = 0;

/// A read-write data segment (permissions are paging's job in long mode).
pub const DATA_READ_WRITE: u8 = 2;

/// A read-only expand-down data segment; ignored in long mode.
pub const DATA_READ_ONLY_EXP_D: u8 = 4;

/// A read-write expand-down data segment; ignored in long mode.
pub const DATA_READ_WRITE_EXP_D: u8 = 6;

/// Code-segment type bit: set by the processor when the segment is loaded.
pub const CODE_ACCESSED: u8 = 1;

/// An execute-only code segment.
pub const CODE_EX_ONLY: u8 = 8;

/// An executable and readable code segment.
pub const CODE_EX_READ: u8 = 10;

/// A conforming execute-only code segment.
pub const CODE_EX_ONLY_CONF: u8 = 12;

/// A conforming readable code segment.
pub const CODE_EX_READ_CONF: u8 = 14;

/// User descriptors are either code or data segments; the meaning of the
/// type bits depends on which.  The `S` access bit must accompany them.
#[derive(Debug, Clone, Copy, PartialEq, Eq, Structural)]
pub enum UserDescriptorType {
    Code(u8),
    Data(u8),
}

impl UserDescriptorType {
    /// The type bits carried by the variant.
    pub open spec fn spec_bits(self) -> u8 {
        match self {
            UserDescriptorType::Code(code) => code,
            UserDescriptorType::Data(data) => data,
        }
    }

    /// The type bits carried by the variant.
    pub fn bits(&self) -> (r: u8)
        ensures
            r == self.spec_bits(),
    {
        match self {
            UserDescriptorType::Code(code) => *code,
            UserDescriptorType::Data(data) => *data,
        }
    }
}

/// System descriptor types.
#[derive(Debug, Clone, Copy, PartialEq, Eq, Structural)]
pub enum SystemDescriptorType {
    Ldt,
    Tss,
    BusyTss,
}

impl SystemDescriptorType {
    /// The four-bit encoding of the type.
    pub open spec fn spec_bits(self) -> u8 {
        match self {
            SystemDescriptorType::Ldt => 0x2,
            SystemDescriptorType::Tss => 0x9,
            SystemDescriptorType::BusyTss => 0xb,
        }
    }

    /// The four-bit encoding of the type.
    pub fn bits(&self) -> (r: u8)
        ensures
            r == self.spec_bits(),
    {
        match self {
            SystemDescriptorType::Ldt => 0x2,
            SystemDescriptorType::Tss => 0x9,
            SystemDescriptorType::BusyTss => 0xb,
        }
    }
}

/// Gate descriptor types.
#[derive(Debug, Clone, Copy, PartialEq, Eq, Structural)]
pub enum GateDescriptorType {
    Call,
    Interrupt,
    Trap,
}

impl GateDescriptorType {
    /// The four-bit encoding of the type.
    pub open spec fn spec_bits(self) -> u8 {
        match self {
            GateDescriptorType::Call => 0xc,
            GateDescriptorType::Interrupt => 0xe,
            GateDescriptorType::Trap => 0xf,
        }
    }

    /// The four-bit encoding of the type.
    pub fn bits(&self) -> (r: u8)
        ensures
            r == self.spec_bits(),
    {
        match self {
            GateDescriptorType::Call => 0xc,
            GateDescriptorType::Interrupt => 0xe,
            GateDescriptorType::Trap => 0xf,
        }
    }
}

/// The 8-byte user descriptor word assembled from its fields.
pub open spec fn spec_user_descriptor_bits(
    base: u32,
    limit: u32,
    typ: UserDescriptorType,
    access: u8,
    flags: u8,
) -> u64 {
    (((base as u64) & 0xff00_0000) << 24) | (((flags as u64) & 0xf) << 52) | (((limit as u64)
        & 0xf_0000) << 32) | (((access as u64) & 0xf) << 44) | (((typ.spec_bits() as u64) & 0xf)
        << 40) | (((base as u64) & 0xff_ffff) << 16) | ((limit as u64) & 0xffff)
}

/// An 8-byte user-segment descriptor.
#[derive(Debug, Clone, Copy, PartialEq, Eq, Structural)]
pub struct UserDescriptor {
    pub bits: u64,
}

impl UserDescriptor {
    /// The all-zero descriptor that must occupy slot 0 of a descriptor
    /// table.
    pub fn null() -> (r: Self)
        ensures
            r.bits == 0,
    {
        UserDescriptor { bits: 0 }
    }

    pub fn new(base: u32, limit: u32, typ: UserDescriptorType, access: u8, flags: u8) -> (r: Self)
        ensures
            r.bits == spec_user_descriptor_bits(base, limit, typ, access, flags),
    {
        let bits = (((base as u64) & 0xff00_0000) << 24) | (((flags as u64) & 0xf) << 52) | ((
        (limit as u64) & 0xf_0000) << 32) | (((access as u64) & 0xf) << 44) | (((typ.bits() as u64)
            & 0xf) << 40) | (((base as u64) & 0xff_ffff) << 16) | ((limit as u64) & 0xffff);
        UserDescriptor { bits }
    }

    /// Replace the 20-bit limit, keeping everything else.
    pub fn set_limit(&mut self, limit: u32)
        ensures
            final(self).bits == (old(self).bits & !0xf_0000_0000_ffffu64) | ((((limit as u64)
                & 0xf_0000) << 32) | ((limit as u64) & 0xffff)),
    {
        self.bits &= !0xf_0000_0000_ffffu64;
        self.bits |= (((limit as u64) & 0xf_0000) << 32) | ((limit as u64) & 0xffff);
    }

    /// Replace the 32-bit base, keeping everything else.
    pub fn set_base(&mut self, base: u32)
        ensures
            final(self).bits == (old(self).bits & !0xff00_00ff_ffff_0000u64) | ((((base as u64)
                & 0xff00_0000) << 24) | (((base as u64) & 0xff_ffff) << 16)),
    {
        self.bits &= !0xff00_00ff_ffff_0000u64;
        self.bits |= (((base as u64) & 0xff00_0000) << 24) | (((base as u64) & 0xff_ffff) << 16);
    }

    /// Replace the descriptor flags, keeping everything else.
    pub fn set_flags(&mut self, flags: u8)
        ensures
            final(self).bits == (old(self).bits & !0xf0_0000_0000_0000u64) | (((flags as u64)
                & 0xf) << 52),
    {
        self.bits &= !0xf0_0000_0000_0000u64;
        self.bits |= ((flags as u64) & 0xf) << 52;
    }

    /// Replace the type bits, keeping everything else.
    pub fn set_type(&mut self, typ: UserDescriptorType)
        ensures
            final(self).bits == (old(self).bits & !0xf00_0000_0000u64) | (((typ.spec_bits()
                as u64) & 0xf) << 40),
    {
        self.bits &= !0xf00_0000_0000u64;
        self.bits |= ((typ.bits() as u64) & 0xf) << 40;
    }

    /// Replace the access bits, keeping everything else.
    pub fn set_access(&mut self, access: u8)
        ensures
            final(self).bits == (old(self).bits & !0xf000_0000_0000u64) | (((access as u64) & 0xf)
                << 44),
    {
        self.bits &= !0xf000_0000_0000u64;
        self.bits |= ((access as u64) & 0xf) << 44;
    }
}

/// The 16-byte system descriptor word assembled from its fields, with the
/// 64-bit base spread over both halves.
pub open spec fn spec_system_descriptor_bits(
    base: u64,
    limit: u32,
    typ: SystemDescriptorType,
    access: u8,
    flags: u8,
) -> u128 {
    (((base as u128) & 0xffff_ffff_0000_0000) << 32) | (((base as u128) & 0xff00_0000) << 24) | ((
    (flags as u128) & 0xf) << 52) | (((limit as u128) & 0xf_0000) << 32) | (((access as u128)
        & 0xf) << 44) | (((typ.spec_bits() as u128) & 0xf) << 40) | (((base as u128) & 0xff_ffff)
        << 16) | ((limit as u128) & 0xffff)
}

/// A 16-byte system-segment descriptor.
#[derive(Debug, Clone, Copy, PartialEq, Eq, Structural)]
pub struct SystemDescriptor {
    pub bits: u128,
}

impl SystemDescriptor {
    /// The all-zero descriptor.
    pub fn null() -> (r: Self)
        ensures
            r.bits == 0,
    {
        SystemDescriptor { bits: 0 }
    }

    pub fn new(base: u64, limit: u32, typ: SystemDescriptorType, access: u8, flags: u8) -> (r:
        Self)
        ensures
            r.bits == spec_system_descriptor_bits(base, limit, typ, access, flags),
    {
        let bits = (((base as u128) & 0xffff_ffff_0000_0000) << 32) | (((base as u128)
            & 0xff00_0000) << 24) | (((flags as u128) & 0xf) << 52) | (((limit as u128) & 0xf_0000)
            << 32) | (((access as u128) & 0xf) << 44) | (((typ.bits() as u128) & 0xf) << 40) | ((
        (base as u128) & 0xff_ffff) << 16) | ((limit as u128) & 0xffff);
        SystemDescriptor { bits }
    }
}

/// The 16-byte gate descriptor word assembled from its fields.
pub open spec fn spec_gate_descriptor_bits(
    offset: u64,
    selector: u16,
    typ: GateDescriptorType,
    access: u8,
    ist: u8,
) -> u128 {
    (((offset as u128) & 0xffff_ffff_ffff_0000) << 32) | (((access as u128) & 0xf) << 44) | ((
    (typ.spec_bits() as u128) & 0xf) << 40) | (((ist as u128) & 0b111) << 32) | (((selector
        as u128) & 0xffff) << 16) | ((offset as u128) & 0xffff)
}

/// A 16-byte gate descriptor.
///
/// `offset` is the handler's virtual address; `selector` is the code
/// segment selector loaded on entry.
#[derive(Debug, Clone, Copy, PartialEq, Eq, Structural)]
pub struct GateDescriptor {
    pub bits: u128,
}

impl GateDescriptor {
    /// The all-zero descriptor: no handler installed.
    pub fn null() -> (r: Self)
        ensures
            r.bits == 0,
    {
        GateDescriptor { bits: 0 }
    }

    pub fn new(offset: u64, selector: u16, typ: GateDescriptorType, access: u8, ist: u8) -> (r:
        Self)
        ensures
            r.bits == spec_gate_descriptor_bits(offset, selector, typ, access, ist),
    {
        let bits = (((offset as u128) & 0xffff_ffff_ffff_0000) << 32) | (((access as u128) & 0xf)
            << 44) | (((typ.bits() as u128) & 0xf) << 40) | (((ist as u128) & 0b111) << 32) | ((
        (selector as u128) & 0xffff) << 16) | ((offset as u128) & 0xffff);
        GateDescriptor { bits }
    }

    /// Replace the handler offset, keeping everything else.
    pub fn set_offset(&mut self, offset: u64)
        ensures
            final(self).bits == (old(self).bits & !0xffff_ffff_ffff_0000_0000_ffffu128) | (((
            (offset as u128) & 0xffff_ffff_ffff_0000) << 32) | ((offset as u128) & 0xffff)),
    {
        self.bits &= !0xffff_ffff_ffff_0000_0000_ffffu128;
        self.bits |= (((offset as u128) & 0xffff_ffff_ffff_0000) << 32) | ((offset as u128)
            & 0xffff);
    }

    /// Replace the segment selector, keeping everything else.
    pub fn set_selector(&mut self, selector: u16)
        ensures
            final(self).bits == (old(self).bits & !0xffff_0000u128) | (((selector as u128)
                & 0xffff) << 16),
    {
        self.bits &= !0xffff_0000u128;
        self.bits |= ((selector as u128) & 0xffff) << 16;
    }

    /// Replace the interrupt-stack-table index, keeping everything else.
    pub fn set_ist(&mut self, ist: u8)
        ensures
            final(self).bits == (old(self).bits & !(0b111u128 << 32)) | (((ist as u128) & 0b111)
                << 32),
    {
        self.bits &= !(0b111u128 << 32);
        self.bits |= ((ist as u128) & 0b111) << 32;
    }

    /// Replace the type bits, keeping everything else.
    pub fn set_type(&mut self, typ: GateDescriptorType)
        ensures
            final(self).bits == (old(self).bits & !0xf00_0000_0000u128) | (((typ.spec_bits()
                as u128) & 0xf) << 40),
    {
        self.bits &= !0xf00_0000_0000u128;
        self.bits |= ((typ.bits() as u128) & 0xf) << 40;
    }

    /// Replace the access bits, keeping everything else.
    pub fn set_access(&mut self, access: u8)
        ensures
            final(self).bits == (old(self).bits & !0xf000_0000_0000u128) | (((access as u128)
                & 0xf) << 44),
    {
        self.bits &= !0xf000_0000_0000u128;
        self.bits |= ((access as u128) & 0xf) << 44;
    }
}

/// The 64-bit task-state segment: privilege-level and interrupt stacks plus
/// the I/O permission bitmap offset.
#[derive(Debug, Clone, Copy, PartialEq, Eq, Structural)]
pub struct Tss {
    pub rsp0: u64,
    pub rsp1: u64,
    pub rsp2: u64,
    pub ist1: u64,
    pub ist2: u64,
    pub ist3: u64,
    pub ist4: u64,
    pub ist5: u64,
    pub ist6: u64,
    pub ist7: u64,
    pub io_map_base: u16,
}

impl Tss {
    /// A task-state segment with only the ring-0 stack and the I/O bitmap
    /// offset filled in.
    pub fn new(rsp0: u64, io_map_base: u16) -> (r: Tss)
        ensures
            r.rsp0 == rsp0,
            r.io_map_base == io_map_base,
            r.rsp1 == 0 && r.rsp2 == 0,
            r.ist1 == 0 && r.ist2 == 0 && r.ist3 == 0 && r.ist4 == 0,
            r.ist5 == 0 && r.ist6 == 0 && r.ist7 == 0,
    {
        Tss {
            rsp0,
            rsp1: 0,
            rsp2: 0,
            ist1: 0,
            ist2: 0,
            ist3: 0,
            ist4: 0,
            ist5: 0,
            ist6: 0,
            ist7: 0,
            io_map_base,
        }
    }
}

} // verus!
