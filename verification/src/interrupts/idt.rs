//! 64-bit gate descriptors kept as their individual fields, with a packed
//! options word.

use vstd::prelude::*;

verus! {

/// 64-bit gate descriptor type.
#[derive(Debug, Clone, Copy, PartialEq, Eq, Structural)]
pub enum GateType {
    Interrupt,
    Trap,
}

impl GateType {
    /// The four-bit encoding of the type.
    pub open spec fn spec_bits(self) -> u16 {
        match self {
            GateType::Interrupt => 0b1110,
            GateType::Trap => 0b1111,
        }
    }

    /// The four-bit encoding of the type.
    pub fn bits(&self) -> (r: u16)
        ensures
            r == self.spec_bits(),
    {
        match self {
            GateType::Interrupt => 0b1110,
            GateType::Trap => 0b1111,
        }
    }
}

/// 64-bit gate descriptor options: present bit, privilege level, type, and
/// interrupt-stack-table index, packed into one 16-bit word.
#[derive(Debug, Clone, Copy, PartialEq, Eq, Structural)]
pub struct GateOptions(pub u16);

impl GateOptions {
    /// An empty options word: not present, type and stack index zero.
    pub fn new() -> (r: GateOptions)
        ensures
            r.0 == 0,
    {
        GateOptions(0)
    }

    /// Toggle the present bit (15).
    pub fn set_p(&mut self, p: bool)
        ensures
            final(self).0 == (old(self).0 & !(1u16 << 15)) | ((if p {
                1u16
            } else {
                0u16
            }) << 15),
    {
        self.0 = (self.0 & !(1u16 << 15)) | ((if p {
            1u16
        } else {
            0u16
        }) << 15);
    }

    /// Return true if the present bit is set.
    pub fn p(&self) -> (r: bool)
        ensures
            r == (self.0 & (1u16 << 15) == (1u16 << 15)),
    {
        self.0 & (1u16 << 15) == (1u16 << 15)
    }

    /// Set the descriptor privilege level (bits 14:13).
    pub fn set_dpl(&mut self, ring: u8)
        ensures
            final(self).0 == (old(self).0 & !(0b11u16 << 13)) | (((ring & 3) as u16) << 13),
    {
        self.0 = (self.0 & !(0b11u16 << 13)) | (((ring & 3) as u16) << 13);
    }

    /// Return the descriptor privilege level.
    pub fn dpl(&self) -> (r: u8)
        ensures
            r == ((self.0 & (0b11u16 << 13)) >> 13) as u8,
    {
        ((self.0 & (0b11u16 << 13)) >> 13) as u8
    }

    /// Set the descriptor type (bits 11:8).
    pub fn set_type(&mut self, typ: GateType)
        ensures
            final(self).0 == (old(self).0 & !(0b1111u16 << 8)) | (typ.spec_bits() << 8),
    {
        self.0 = (self.0 & !(0b1111u16 << 8)) | (typ.bits() << 8);
    }

    /// Return the descriptor type; any encoding other than an interrupt
    /// gate reads as a trap gate.
    pub fn typ(&self) -> (r: GateType)
        ensures
            r == if (self.0 & (0b1111u16 << 8)) >> 8 == 0b1110 {
                GateType::Interrupt
            } else {
                GateType::Trap
            },
    {
        if (self.0 & (0b1111u16 << 8)) >> 8 == 0b1110 {
            GateType::Interrupt
        } else {
            GateType::Trap
        }
    }

    /// Set the interrupt stack table index (bits 2:0).
    pub fn set_ist(&mut self, ist: u8)
        ensures
            final(self).0 == (old(self).0 & !0b111u16) | ((ist as u16) & 0b111),
    {
        self.0 = (self.0 & !0b111u16) | ((ist as u16) & 0b111);
    }

    /// Return the interrupt stack table index.
    pub fn ist(&self) -> (r: u8)
        ensures
            r == (self.0 & 0b111) as u8,
    {
        (self.0 & 0b111) as u8
    }
}

/// A 64-bit gate descriptor, kept as its individual fields.
#[derive(Debug, Clone, Copy, PartialEq, Eq, Structural)]
pub struct GateDescriptor {
    pub offset_low: u16,
    pub selector: u16,
    pub options: GateOptions,
    pub offset_middle: u16,
    pub offset_high: u32,
    pub _reserved: u32,
}

impl GateDescriptor {
    /// An empty descriptor: no handler installed.
    pub fn new() -> (r: GateDescriptor)
        ensures
            r == (GateDescriptor {
                offset_low: 0,
                selector: 0,
                options: GateOptions(0),
                offset_middle: 0,
                offset_high: 0,
                _reserved: 0,
            }),
    {
        GateDescriptor {
            offset_low: 0,
            selector: 0,
            options: GateOptions(0),
            offset_middle: 0,
            offset_high: 0,
            _reserved: 0,
        }
    }

    /// Set the entry point of the service routine for this descriptor.
    pub fn set_offset(&mut self, offset: u64)
        ensures
            final(self).offset_low == (offset & 0xffff) as u16,
            final(self).offset_middle == ((offset >> 16) & 0xffff) as u16,
            final(self).offset_high == (offset >> 32) as u32,
            final(self).selector == old(self).selector,
            final(self).options == old(self).options,
            final(self)._reserved == old(self)._reserved,
    {
        self.offset_low = (offset & 0xffff) as u16;
        self.offset_middle = ((offset >> 16) & 0xffff) as u16;
        self.offset_high = (offset >> 32) as u32;
    }

    /// Return the entry point for this descriptor.
    pub fn offset(&self) -> (r: u64)
        ensures
            r == ((self.offset_high as u64) << 32) | (((self.offset_middle as u64) << 16) | (
            self.offset_low as u64)),
    {
        ((self.offset_high as u64) << 32) | (((self.offset_middle as u64) << 16) | (self.offset_low
            as u64))
    }

    /// Set the code segment selector for this descriptor.
    pub fn set_selector(&mut self, selector: u16)
        ensures
            *final(self) == (GateDescriptor { selector, ..*old(self) }),
    {
        self.selector = selector;
    }

    /// Return the code segment selector for this descriptor.
    pub fn selector(&self) -> (r: u16)
        ensures
            r == self.selector,
    {
        self.selector
    }

    /// Set the options word for this descriptor.
    pub fn set_options(&mut self, options: GateOptions)
        ensures
            *final(self) == (GateDescriptor { options, ..*old(self) }),
    {
        self.options = options;
    }

    /// Return the options word for this descriptor.
    pub fn options(&self) -> (r: GateOptions)
        ensures
            r == self.options,
    {
        self.options
    }
}

} // verus!
