//! I/O APIC registers: the identification, version and arbitration words,
//! and the two-word redirection table entries.

use vstd::prelude::*;

verus! {

/// Offset of the register-select word in the controller's page.
pub const IO_APIC_REG_SEL: u32 = 0x0;

/// Offset of the register-window word in the controller's page.
pub const IO_APIC_REG_WIN: u32 = 0x10;

/// The identification register.
pub const IO_APIC_ID_REG: u32 = 0x0;

/// The version register.
pub const IO_APIC_VERSION_REG: u32 = 0x1;

/// The arbitration register.
pub const IO_APIC_ARB_ID_REG: u32 = 0x2;

/// The first redirection-table register; entry `n` occupies registers
/// `0x10 + 2n` and `0x11 + 2n`.
pub const IO_APIC_RED_TBL_0: u32 = 0x10;

/// The identification register: a 4-bit physical name for the controller in
/// bits 27:24.
#[derive(Debug, Clone, Copy, PartialEq, Eq, Structural)]
pub struct IoApicId {
    pub bits: u32,
}

impl IoApicId {
    /// A register word carrying the given 4-bit identifier.
    pub fn new(id: u8) -> (r: Self)
        ensures
            r.bits == ((id & 0xf) as u32) << 24,
    {
        Self { bits: ((id & 0xf) as u32) << 24 }
    }

    /// The 4-bit identifier.
    pub fn ioapic_id(&self) -> (r: u8)
        ensures
            r == ((self.bits >> 24) & 0xf) as u8,
    {
        ((self.bits >> 24) & 0xf) as u8
    }

    /// Replace the identifier, keeping the other bits.
    pub fn set_ioapic_id(&mut self, id: u8)
        ensures
            final(self).bits == (old(self).bits & !(0xfu32 << 24)) | (((id & 0xf) as u32) << 24),
    {
        self.bits &= !(0xfu32 << 24);
        self.bits |= ((id & 0xf) as u32) << 24;
    }

    /// Assemble the register from its raw bits.
    pub fn from_bits_unchecked(bits: u32) -> (r: Self)
        ensures
            r.bits == bits,
    {
        Self { bits }
    }

    /// The raw register word.
    pub fn bits(&self) -> (r: u32)
        ensures
            r == self.bits,
    {
        self.bits
    }
}

/// The version register: the implementation version in bits 7:0 and the
/// maximum redirection entry in bits 23:16.
#[derive(Debug, Clone, Copy, PartialEq, Eq, Structural)]
pub struct Version {
    pub bits: u32,
}

impl Version {
    /// The controller's implementation version.
    pub fn version(&self) -> (r: u8)
        ensures
            r == (self.bits & 0xff) as u8,
    {
        (self.bits & 0xff) as u8
    }

    /// The number of redirection table entries minus one.
    pub fn max_redir_entry(&self) -> (r: u8)
        ensures
            r == ((self.bits >> 16) & 0xff) as u8,
    {
        ((self.bits >> 16) & 0xff) as u8
    }

    /// Assemble the register from its raw bits.
    pub fn from_bits_unchecked(bits: u32) -> (r: Self)
        ensures
            r.bits == bits,
    {
        Self { bits }
    }
}

/// The arbitration register: the bus arbitration priority in bits 27:24.
#[derive(Debug, Clone, Copy, PartialEq, Eq, Structural)]
pub struct Arbitration {
    pub bits: u32,
}

impl Arbitration {
    /// The arbitration identifier.
    pub fn ioapic_id(&self) -> (r: u8)
        ensures
            r == ((self.bits >> 24) & 0xff) as u8,
    {
        ((self.bits >> 24) & 0xff) as u8
    }

    /// Assemble the register from its raw bits.
    pub fn from_bits_unchecked(bits: u32) -> (r: Self)
        ensures
            r.bits == bits,
    {
        Self { bits }
    }

    /// The raw register word.
    pub fn bits(&self) -> (r: u32)
        ensures
            r == self.bits,
    {
        self.bits
    }
}

/// Interrupt delivery mode of a redirection entry.
///
/// Very similar to the local controller's delivery modes, but not exactly
/// the same or completely interchangeable, so defined separately.
#[derive(Debug, Clone, Copy, PartialEq, Eq, Structural)]
pub enum DeliveryMode {
    /// Deliver the signal on the INTR signal of all destination cores.
    Fixed,
    /// Deliver to the processor core executing at the lowest priority.
    LowestPriority,
    /// System-management interrupt; requires edge trigger mode and vector 0.
    SMI,
    /// Reserved encoding.
    _Reserved0,
    /// Deliver on the NMI signal; always treated as edge-triggered.
    NMI,
    /// Assert the INIT signal of all destination cores.
    INIT,
    /// Reserved encoding.
    _Reserved1,
    /// Respond as if the signal came from an 8259A-compatible controller.
    ExtINT,
}

impl DeliveryMode {
    /// The three-bit encoding of the mode.
    pub open spec fn spec_bits(self) -> u32 {
        match self {
            DeliveryMode::Fixed => 0b000,
            DeliveryMode::LowestPriority => 0b001,
            DeliveryMode::SMI => 0b010,
            DeliveryMode::_Reserved0 => 0b011,
            DeliveryMode::NMI => 0b100,
            DeliveryMode::INIT => 0b101,
            DeliveryMode::_Reserved1 => 0b110,
            DeliveryMode::ExtINT => 0b111,
        }
    }

    /// The mode encoded by the low three bits of `v`.
    pub open spec fn spec_from_bits(v: u32) -> DeliveryMode {
        if v == 0b000 {
            DeliveryMode::Fixed
        } else if v == 0b001 {
            DeliveryMode::LowestPriority
        } else if v == 0b010 {
            DeliveryMode::SMI
        } else if v == 0b011 {
            DeliveryMode::_Reserved0
        } else if v == 0b100 {
            DeliveryMode::NMI
        } else if v == 0b101 {
            DeliveryMode::INIT
        } else if v == 0b110 {
            DeliveryMode::_Reserved1
        } else {
            DeliveryMode::ExtINT
        }
    }

    /// The three-bit encoding of the mode.
    pub fn bits(&self) -> (r: u32)
        ensures
            r == self.spec_bits(),
    {
        match self {
            DeliveryMode::Fixed => 0b000,
            DeliveryMode::LowestPriority => 0b001,
            DeliveryMode::SMI => 0b010,
            DeliveryMode::_Reserved0 => 0b011,
            DeliveryMode::NMI => 0b100,
            DeliveryMode::INIT => 0b101,
            DeliveryMode::_Reserved1 => 0b110,
            DeliveryMode::ExtINT => 0b111,
        }
    }
}

/// Interrupt destination mode: how the destination field is interpreted.
#[derive(Debug, Clone, Copy, PartialEq, Eq, Structural)]
pub enum DestinationMode {
    /// The destination field is an APIC ID.
    Physical,
    /// The destination is matched against each local APIC's logical
    /// destination register.
    Logical,
}

impl DestinationMode {
    /// The one-bit encoding of the mode.
    pub open spec fn spec_bits(self) -> u32 {
        match self {
            DestinationMode::Physical => 0,
            DestinationMode::Logical => 1,
        }
    }

    /// The one-bit encoding of the mode.
    pub fn bits(&self) -> (r: u32)
        ensures
            r == self.spec_bits(),
    {
        match self {
            DestinationMode::Physical => 0,
            DestinationMode::Logical => 1,
        }
    }
}

/// Indicates the interrupt delivery status.
#[derive(Debug, Clone, Copy, PartialEq, Eq, Structural)]
pub enum DeliveryStatus {
    /// No activity, or the previous interrupt was delivered and accepted.
    Idle,
    /// An interrupt has been delivered but not accepted yet.
    SendPending,
}

/// The polarity of the interrupt pin.
#[derive(Debug, Clone, Copy, PartialEq, Eq, Structural)]
pub enum InterruptPinPolarity {
    HighActive,
    LowActive,
}

impl InterruptPinPolarity {
    /// The one-bit encoding of the polarity.
    pub open spec fn spec_bits(self) -> u32 {
        match self {
            InterruptPinPolarity::HighActive => 0,
            InterruptPinPolarity::LowActive => 1,
        }
    }

    /// The one-bit encoding of the polarity.
    pub fn bits(&self) -> (r: u32)
        ensures
            r == self.spec_bits(),
    {
        match self {
            InterruptPinPolarity::HighActive => 0,
            InterruptPinPolarity::LowActive => 1,
        }
    }
}

/// The kind of signal on the interrupt pin that triggers an interrupt.
#[derive(Debug, Clone, Copy, PartialEq, Eq, Structural)]
pub enum TriggerMode {
    Edge,
    Level,
}

impl TriggerMode {
    /// The one-bit encoding of the mode.
    pub open spec fn spec_bits(self) -> u32 {
        match self {
            TriggerMode::Edge => 0,
            TriggerMode::Level => 1,
        }
    }

    /// The one-bit encoding of the mode.
    pub fn bits(&self) -> (r: u32)
        ensures
            r == self.spec_bits(),
    {
        match self {
            TriggerMode::Edge => 0,
            TriggerMode::Level => 1,
        }
    }
}

/// The lower word of a redirection table entry.
#[derive(Debug, Clone, Copy, PartialEq, Eq, Structural)]
pub struct RedirectionTableEntryLow {
    pub bits: u32,
}

/// The lower redirection word assembled from its fields: vector in bits
/// 7:0, delivery mode in 10:8, destination mode in 11, pin polarity in 13,
/// trigger mode in 15, mask in 16.
pub open spec fn spec_redirection_low_bits(
    vector: u8,
    delivery_mode: DeliveryMode,
    destination_mode: DestinationMode,
    int_pin_polarity: InterruptPinPolarity,
    trigger_mode: TriggerMode,
    masked: bool,
) -> u32 {
    (vector as u32) | (delivery_mode.spec_bits() << 8) | (destination_mode.spec_bits() << 11) | (
    int_pin_polarity.spec_bits() << 13) | (trigger_mode.spec_bits() << 15) | ((if masked {
        1u32
    } else {
        0u32
    }) << 16)
}

impl RedirectionTableEntryLow {
    pub fn new(
        vector: u8,
        delivery_mode: DeliveryMode,
        destination_mode: DestinationMode,
        int_pin_polarity: InterruptPinPolarity,
        trigger_mode: TriggerMode,
        masked: bool,
    ) -> (r: Self)
        ensures
            r.bits == spec_redirection_low_bits(
                vector,
                delivery_mode,
                destination_mode,
                int_pin_polarity,
                trigger_mode,
                masked,
            ),
    {
        let mut bits = vector as u32;
        bits |= delivery_mode.bits() << 8;
        bits |= destination_mode.bits() << 11;
        bits |= int_pin_polarity.bits() << 13;
        bits |= trigger_mode.bits() << 15;
        bits |= (if masked {
            1u32
        } else {
            0u32
        }) << 16;

        Self { bits }
    }

    /// The interrupt vector: bits 7:0.
    pub fn vector(&self) -> (r: u8)
        ensures
            r == (self.bits & 0xff) as u8,
    {
        (self.bits & 0xff) as u8
    }

    /// Replace the interrupt vector.
    pub fn set_vector(&mut self, vector: u8)
        ensures
            final(self).bits == (old(self).bits & !0xffu32) | vector as u32,
    {
        self.bits &= !0xffu32;
        self.bits |= vector as u32;
    }

    /// The delivery mode: bits 10:8.
    pub fn delivery_mode(&self) -> (r: DeliveryMode)
        ensures
            r == DeliveryMode::spec_from_bits((self.bits >> 8) & 0b111),
    {
        let v = (self.bits >> 8) & 0b111;
        if v == 0b000 {
            DeliveryMode::Fixed
        } else if v == 0b001 {
            DeliveryMode::LowestPriority
        } else if v == 0b010 {
            DeliveryMode::SMI
        } else if v == 0b011 {
            DeliveryMode::_Reserved0
        } else if v == 0b100 {
            DeliveryMode::NMI
        } else if v == 0b101 {
            DeliveryMode::INIT
        } else if v == 0b110 {
            DeliveryMode::_Reserved1
        } else {
            DeliveryMode::ExtINT
        }
    }

    /// Replace the delivery mode.
    pub fn set_delivery_mode(&mut self, mode: DeliveryMode)
        ensures
            final(self).bits == (old(self).bits & !(0b111u32 << 8)) | (mode.spec_bits() << 8),
    {
        self.bits &= !(0b111u32 << 8);
        self.bits |= mode.bits() << 8;
    }

    /// The destination mode: bit 11.
    pub fn destination_mode(&self) -> (r: DestinationMode)
        ensures
            r == if (self.bits >> 11) & 1 == 0 {
                DestinationMode::Physical
            } else {
                DestinationMode::Logical
            },
    {
        if (self.bits >> 11) & 1 == 0 {
            DestinationMode::Physical
        } else {
            DestinationMode::Logical
        }
    }

    /// Replace the destination mode.
    pub fn set_destination_mode(&mut self, mode: DestinationMode)
        ensures
            final(self).bits == (old(self).bits & !(1u32 << 11)) | (mode.spec_bits() << 11),
    {
        self.bits &= !(1u32 << 11);
        self.bits |= mode.bits() << 11;
    }

    /// The delivery status: bit 12 (read-only, set by hardware).
    pub fn delivery_status(&self) -> (r: DeliveryStatus)
        ensures
            r == if (self.bits >> 12) & 1 == 0 {
                DeliveryStatus::Idle
            } else {
                DeliveryStatus::SendPending
            },
    {
        if (self.bits >> 12) & 1 == 0 {
            DeliveryStatus::Idle
        } else {
            DeliveryStatus::SendPending
        }
    }

    /// The interrupt pin polarity: bit 13.
    pub fn int_pin_polarity(&self) -> (r: InterruptPinPolarity)
        ensures
            r == if (self.bits >> 13) & 1 == 0 {
                InterruptPinPolarity::HighActive
            } else {
                InterruptPinPolarity::LowActive
            },
    {
        if (self.bits >> 13) & 1 == 0 {
            InterruptPinPolarity::HighActive
        } else {
            InterruptPinPolarity::LowActive
        }
    }

    /// Replace the interrupt pin polarity.
    pub fn set_int_pin_polarity(&mut self, polarity: InterruptPinPolarity)
        ensures
            final(self).bits == (old(self).bits & !(1u32 << 13)) | (polarity.spec_bits() << 13),
    {
        self.bits &= !(1u32 << 13);
        self.bits |= polarity.bits() << 13;
    }

    /// The remote-IRR bit (14), used for level-triggered interrupts: set
    /// when a local APIC accepts the interrupt, cleared by its EOI.
    pub fn remote_irr(&self) -> (r: bool)
        ensures
            r == (((self.bits >> 14) & 1) == 1),
    {
        ((self.bits >> 14) & 1) == 1
    }

    /// The trigger mode: bit 15.
    pub fn trigger_mode(&self) -> (r: TriggerMode)
        ensures
            r == if (self.bits >> 15) & 1 == 0 {
                TriggerMode::Edge
            } else {
                TriggerMode::Level
            },
    {
        if (self.bits >> 15) & 1 == 0 {
            TriggerMode::Edge
        } else {
            TriggerMode::Level
        }
    }

    /// Replace the trigger mode.
    pub fn set_trigger_mode(&mut self, mode: TriggerMode)
        ensures
            final(self).bits == (old(self).bits & !(1u32 << 15)) | (mode.spec_bits() << 15),
    {
        self.bits &= !(1u32 << 15);
        self.bits |= mode.bits() << 15;
    }

    /// The mask bit (16): a masked entry delivers no interrupt.
    pub fn masked(&self) -> (r: bool)
        ensures
            r == (((self.bits >> 16) & 1) == 1),
    {
        ((self.bits >> 16) & 1) == 1
    }

    /// Replace the mask bit.
    pub fn set_masked(&mut self, masked: bool)
        ensures
            final(self).bits == (old(self).bits & !(1u32 << 16)) | ((if masked {
                1u32
            } else {
                0u32
            }) << 16),
    {
        self.bits &= !(1u32 << 16);
        self.bits |= (if masked {
            1u32
        } else {
            0u32
        }) << 16;
    }

    /// Assemble the register from its raw bits.
    pub fn from_bits_unchecked(bits: u32) -> (r: Self)
        ensures
            r.bits == bits,
    {
        Self { bits }
    }

    /// The raw register word.
    pub fn bits(&self) -> (r: u32)
        ensures
            r == self.bits,
    {
        self.bits
    }
}

/// The destination of a redirection entry: a 4-bit APIC ID in physical
/// mode, or an 8-bit set of processors in logical mode.
#[derive(Debug, Clone, Copy, PartialEq, Eq, Structural)]
pub enum LogicalDestination {
    ApicID(u8),
    Group(u8),
}

/// The upper word of a redirection table entry, holding the destination in
/// bits 31:24.
#[derive(Debug, Clone, Copy, PartialEq, Eq, Structural)]
pub struct RedirectionTableEntryHigh {
    pub bits: u32,
}

/// The destination field of the upper word: 4 bits of an APIC ID, or all 8
/// bits of a logical set.
pub open spec fn spec_destination_bits(destination: LogicalDestination) -> u32 {
    match destination {
        LogicalDestination::ApicID(id) => ((id & 0xf) as u32) << 24,
        LogicalDestination::Group(id) => (id as u32) << 24,
    }
}

impl RedirectionTableEntryHigh {
    pub fn new(destination: LogicalDestination) -> (r: Self)
        ensures
            r.bits == spec_destination_bits(destination),
    {
        let bits = match destination {
            LogicalDestination::ApicID(id) => ((id & 0xf) as u32) << 24,
            LogicalDestination::Group(id) => (id as u32) << 24,
        };

        Self { bits }
    }

    /// Read the destination back, interpreted under the given destination
    /// mode.
    pub fn logical_destination(&self, mode: DestinationMode) -> (r: LogicalDestination)
        ensures
            r == match mode {
                DestinationMode::Physical => LogicalDestination::ApicID(
                    ((self.bits >> 24) & 0xf) as u8,
                ),
                DestinationMode::Logical => LogicalDestination::Group(
                    ((self.bits >> 24) & 0xff) as u8,
                ),
            },
    {
        match mode {
            DestinationMode::Physical => LogicalDestination::ApicID(
                ((self.bits >> 24) & 0xf) as u8,
            ),
            DestinationMode::Logical => LogicalDestination::Group(((self.bits >> 24) & 0xff) as u8),
        }
    }

    /// Replace the destination, clearing all eight destination bits first.
    pub fn set_logical_destination(&mut self, destination: LogicalDestination)
        ensures
            final(self).bits == (old(self).bits & !(0xffu32 << 24)) | spec_destination_bits(
                destination,
            ),
    {
        self.bits &= !(0xffu32 << 24);
        self.bits |= match destination {
            LogicalDestination::ApicID(id) => ((id & 0xf) as u32) << 24,
            LogicalDestination::Group(id) => (id as u32) << 24,
        };
    }

    /// Assemble the register from its raw bits.
    pub fn from_bits_unchecked(bits: u32) -> (r: Self)
        ensures
            r.bits == bits,
    {
        Self { bits }
    }

    /// The raw register word.
    pub fn bits(&self) -> (r: u32)
        ensures
            r == self.bits,
    {
        self.bits
    }
}

/// A full redirection table entry: one dedicated entry per interrupt input
/// signal, translating the pin into an inter-APIC message.
#[derive(Debug, Clone, Copy, PartialEq, Eq, Structural)]
pub struct RedirectionTableEntry {
    pub high: RedirectionTableEntryHigh,
    pub low: RedirectionTableEntryLow,
}

impl RedirectionTableEntry {
    /// Assemble the entry from its two raw words.
    pub fn from_bits_unchecked(low: u32, high: u32) -> (r: Self)
        ensures
            r.low.bits == low,
            r.high.bits == high,
    {
        Self {
            high: RedirectionTableEntryHigh::from_bits_unchecked(high),
            low: RedirectionTableEntryLow::from_bits_unchecked(low),
        }
    }
}

} // verus!
