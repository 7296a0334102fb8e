//! The early interrupt descriptor table.
//!
//! This table only serves to get the boot processor through the early setup
//! code; installed handlers are referred to by their opaque entry-point
//! addresses.

use vstd::prelude::*;

pub mod handler;

verus! {

/// 64-bit gate type of an early table entry.
#[derive(Debug, Clone, Copy, PartialEq, Eq, Structural)]
pub enum GateType {
    Interrupt,
    Trap,
}

impl GateType {
    /// The four-bit encoding of the type.
    pub open spec fn spec_bits(self) -> u8 {
        match self {
            GateType::Interrupt => 0b1110,
            GateType::Trap => 0b1111,
        }
    }

    /// The four-bit encoding of the type.
    pub fn bits(&self) -> (r: u8)
        ensures
            r == self.spec_bits(),
    {
        match self {
            GateType::Interrupt => 0b1110,
            GateType::Trap => 0b1111,
        }
    }
}

/// One 16-byte entry of the early interrupt descriptor table, kept as its
/// individual fields.
#[derive(Debug, Clone, Copy, PartialEq, Eq, Structural)]
pub struct Entry {
    pub offset_low: u16,
    pub selector: u16,
    pub ist: u8,
    pub flags: u8,
    pub offset_middle: u16,
    pub offset_high: u32,
    pub _reserved: u32,
}

impl Entry {
    /// The empty entry: no handler installed.
    pub open spec fn spec_zero() -> Entry {
        Entry {
            offset_low: 0,
            selector: 0,
            ist: 0,
            flags: 0,
            offset_middle: 0,
            offset_high: 0,
            _reserved: 0,
        }
    }

    /// An empty entry: no handler installed.
    pub fn new() -> (r: Self)
        ensures
            r == (Entry {
                offset_low: 0,
                selector: 0,
                ist: 0,
                flags: 0,
                offset_middle: 0,
                offset_high: 0,
                _reserved: 0,
            }),
    {
        Entry {
            offset_low: 0,
            selector: 0,
            ist: 0,
            flags: 0,
            offset_middle: 0,
            offset_high: 0,
            _reserved: 0,
        }
    }

    /// Set the handler offset of this entry, split over its three parts.
    pub fn set_offset(&mut self, offset: u64)
        ensures
            final(self).offset_low == (offset & 0xffff) as u16,
            final(self).offset_middle == ((offset >> 16) & 0xffff) as u16,
            final(self).offset_high == (offset >> 32) as u32,
            final(self).selector == old(self).selector,
            final(self).ist == old(self).ist,
            final(self).flags == old(self).flags,
            final(self)._reserved == old(self)._reserved,
    {
        self.offset_low = (offset & 0xffff) as u16;
        self.offset_middle = ((offset >> 16) & 0xffff) as u16;
        self.offset_high = (offset >> 32) as u32;
    }

    /// Set the segment selector for this entry.
    pub fn set_selector(&mut self, selector: u16)
        ensures
            *final(self) == (Entry { selector, ..*old(self) }),
    {
        self.selector = selector;
    }

    /// Set the interrupt stack table index (three bits).
    pub fn set_ist(&mut self, ist: u8)
        ensures
            *final(self) == (Entry { ist: ist & 0b111, ..*old(self) }),
    {
        self.ist = ist & 0b111;
    }

    /// Mark the entry as present (bit 7 of the flags).
    pub fn set_p(&mut self, p: bool)
        ensures
            final(self).flags == (old(self).flags & !(1u8 << 7)) | ((if p {
                1u8
            } else {
                0u8
            }) << 7),
            *final(self) == (Entry { flags: final(self).flags, ..*old(self) }),
    {
        self.flags = (self.flags & !(1u8 << 7)) | ((if p {
            1u8
        } else {
            0u8
        }) << 7);
    }

    /// Set the descriptor privilege level (bits 6:5 of the flags).
    pub fn set_dpl(&mut self, dpl: u8)
        ensures
            final(self).flags == (old(self).flags & !(3u8 << 5)) | ((dpl & 3) << 5),
            *final(self) == (Entry { flags: final(self).flags, ..*old(self) }),
    {
        self.flags = (self.flags & !(3u8 << 5)) | ((dpl & 3) << 5);
    }

    pub fn set_type(&mut self, typ: GateType)
        ensures
            final(self).flags == (old(self).flags & !0xfu8) | typ.spec_bits(),
            *final(self) == (Entry { flags: final(self).flags, ..*old(self) }),
    {
        self.flags = (self.flags & !0xfu8) | typ.bits();
    }
}

/// The early interrupt descriptor table: 256 entries.
#[derive(Debug, Clone)]
pub struct InterruptDescriptorTable {
    pub entries: Vec<Entry>,
}

impl InterruptDescriptorTable {
    /// A well-formed table has exactly 256 entries.
    pub open spec fn wf(&self) -> bool {
        self.entries@.len() == 256
    }

    /// A fresh table with every entry empty.
    pub fn new() -> (r: Self)
        ensures
            r.wf(),
            forall|i: int| 0 <= i < 256 ==> r.entries@[i] == Entry::spec_zero(),
    {
        let zero = Entry::new();
        let mut entries: Vec<Entry> = Vec::new();
        let mut i: usize = 0;
        while i < 256
            invariant
                i <= 256,
                entries@.len() == i,
                forall|j: int| 0 <= j < i ==> entries@[j] == zero,
        decreases 256 - i,
        {
            entries.push(zero);
            i += 1;
        }
        InterruptDescriptorTable { entries }
    }
}

} // verus!
