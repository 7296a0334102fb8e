//! x(2)APIC registers.
//!
//! Register offsets and the bit layout of the interrupt command register
//! (ICR), the error status register, the version register, and the timer
//! divide configuration register.
//!
//! An xAPIC register `x` is accessed in x2APIC mode through the
//! model-specific register `(x >> 4) + X2APIC_MSR_BASE`.

use vstd::prelude::*;

verus! {

/// Base for x2APIC register access.
pub const X2APIC_MSR_BASE: u32 = 0x800;

/// Local APIC ID register.
pub const LOCAL_APIC_ID_REG: u32 = 0x20;

/// Local APIC version register.
pub const LOCAL_APIC_VERSION_REG: u32 = 0x30;

/// Task-priority register.
pub const TASK_PRIORITY_REG: u32 = 0x80;

/// End-of-interrupt register.
pub const EOI_REG: u32 = 0xb0;

/// Spurious interrupt vector register.
pub const SPURIOUS_INT_VECTOR_REG: u32 = 0xf0;

/// Error status register.
pub const ERROR_STATUS_REG: u32 = 0x280;

/// Interrupt command register (bits 31:0).
pub const ICR_LOW_REG: u32 = 0x300;

/// Interrupt command register (bits 63:32).  xAPIC only!
pub const ICR_HIGH_REG: u32 = 0x310;

/// Local vector table Timer register.
pub const LVT_TIMER_REG: u32 = 0x320;

/// Local vector table Error register.
pub const LVT_ERROR_REG: u32 = 0x370;

/// Initial count register for the timer.
pub const TIMER_INIT_COUNT_REG: u32 = 0x380;

/// Current count register for the timer.
pub const TIMER_CURR_COUNT_REG: u32 = 0x390;

/// Divide configuration register for the timer.
pub const TIMER_DIVIDE_CONF_REG: u32 = 0x3e0;

/// APIC version register.
///
/// The local APIC contains a hardwired version register, which identifies
/// the APIC version and gives the number of local vector table entries.
#[derive(Debug, Clone, Copy, PartialEq, Eq, Structural)]
pub struct Version {
    pub bits: u32,
}

impl Version {
    /// The version of the local APIC: bits 7:0.
    pub open spec fn spec_version(self) -> u8 {
        (self.bits & 0xff) as u8
    }

    /// The maximum number of local vector table entries minus one: bits 15:8.
    pub open spec fn spec_max_lvt_entry(self) -> u8 {
        ((self.bits >> 8) & 0xff) as u8
    }

    /// Return the version of the local APIC.
    ///
    /// A version of `0x00` indicates a discrete APIC; a version between
    /// `0x10` and `0x15` indicates an integrated APIC.
    pub fn version(&self) -> (r: u8)
        ensures
            r == self.spec_version(),
    {
        (self.bits & 0xff) as u8
    }

    /// Returns the maximum number of LVT entries minus one.
    pub fn max_lvt_entry(&self) -> (r: u8)
        ensures
            r == self.spec_max_lvt_entry(),
    {
        ((self.bits >> 8) & 0xff) as u8
    }

    /// Indicates whether software can inhibit the broadcast of EOI messages.
    pub fn eoi_broadcast_supression(&self) -> (r: bool)
        ensures
            r == (((self.bits >> 24) & 1) == 1),
    {
        ((self.bits >> 24) & 1) == 1
    }

    /// Assemble the register from its raw bits.
    pub fn from_bits_unchecked(bits: u32) -> (r: Self)
        ensures
            r.bits == bits,
    {
        Version { bits }
    }
}

/// The local APIC records errors detected during interrupt handling in the
/// error status register (ESR).
#[derive(Debug, Clone, Copy, PartialEq, Eq, Structural)]
pub struct ErrorStatus {
    pub bits: u32,
}

impl ErrorStatus {
    /// Set when the local APIC detects a checksum error for a message it
    /// sent on the APIC bus.
    pub fn send_checksum_error(&self) -> (r: bool)
        ensures
            r == ((self.bits & 1) == 1),
    {
        (self.bits & 1) == 1
    }

    /// Set when the local APIC detects a checksum error for a message it
    /// received on the APIC bus.
    pub fn receive_checksum_error(&self) -> (r: bool)
        ensures
            r == (((self.bits >> 1) & 1) == 1),
    {
        ((self.bits >> 1) & 1) == 1
    }

    /// Set when the local APIC detects that a message it sent was not
    /// accepted by any APIC on the APIC bus.
    pub fn send_accept_error(&self) -> (r: bool)
        ensures
            r == (((self.bits >> 2) & 1) == 1),
    {
        ((self.bits >> 2) & 1) == 1
    }

    /// Set when the local APIC detects that a message it received was not
    /// accepted by any APIC on the APIC bus, including itself.
    pub fn receive_accept_error(&self) -> (r: bool)
        ensures
            r == (((self.bits >> 3) & 1) == 1),
    {
        ((self.bits >> 3) & 1) == 1
    }

    /// Set when the local APIC detects an attempt to send an IPI with the
    /// lowest-priority delivery mode and the hardware does not support it.
    pub fn redirectable_ipi(&self) -> (r: bool)
        ensures
            r == (((self.bits >> 4) & 1) == 1),
    {
        ((self.bits >> 4) & 1) == 1
    }

    /// Set when the local APIC detects an illegal vector (0 to 15) in the
    /// message that it is sending.
    pub fn send_illegal_vector(&self) -> (r: bool)
        ensures
            r == (((self.bits >> 5) & 1) == 1),
    {
        ((self.bits >> 5) & 1) == 1
    }

    /// Set when the local APIC detects an illegal vector (0 to 15) in an
    /// interrupt message it receives or generates locally.
    pub fn receive_illegal_vector(&self) -> (r: bool)
        ensures
            r == (((self.bits >> 6) & 1) == 1),
    {
        ((self.bits >> 6) & 1) == 1
    }

    /// Set when software attempts to access a reserved register while the
    /// local APIC is in xAPIC mode.
    pub fn illegal_register_access(&self) -> (r: bool)
        ensures
            r == (((self.bits >> 7) & 1) == 1),
    {
        ((self.bits >> 7) & 1) == 1
    }

    /// Assemble the register from its raw bits.
    pub fn from_bits_unchecked(bits: u32) -> (r: Self)
        ensures
            r.bits == bits,
    {
        ErrorStatus { bits }
    }

    /// The raw register word.
    pub fn bits(&self) -> (r: u32)
        ensures
            r == self.bits,
    {
        self.bits
    }
}

/// Interrupt delivery mode.
///
/// Specifies the type of interrupt to be sent to the processor.
#[derive(Debug, Clone, Copy, PartialEq, Eq, Structural)]
pub enum DeliveryMode {
    /// Deliver the interrupt specified in the vector field.
    Fixed,
    /// Deliver to the processor executing at the lowest priority among the
    /// destinations.  Model specific; to be avoided by system software.
    LowestPriority,
    /// Deliver a system-management interrupt; the vector must be 0.
    SMI,
    /// Reserved encoding (a remote-read facility on some processors).
    _Reserved,
    /// Deliver a non-maskable interrupt; the vector field is ignored.
    NMI,
    /// Deliver an INIT request: the target performs an INIT and then waits
    /// for a STARTUP inter-processor interrupt.
    INIT,
    /// Deliver a start-up request (SIPI): the target starts executing the
    /// bootstrap routine whose page number is in the vector field.
    StartUp,
    /// Respond as if the interrupt came from an 8259A-compatible external
    /// controller.
    ExtINT,
}

impl DeliveryMode {
    /// The three-bit encoding of the mode.
    pub open spec fn spec_bits(self) -> u32 {
        match self {
            DeliveryMode::Fixed => 0b000,
            DeliveryMode::LowestPriority => 0b001,
            DeliveryMode::SMI => 0b010,
            DeliveryMode::_Reserved => 0b011,
            DeliveryMode::NMI => 0b100,
            DeliveryMode::INIT => 0b101,
            DeliveryMode::StartUp => 0b110,
            DeliveryMode::ExtINT => 0b111,
        }
    }

    /// The mode encoded by the low three bits of `v`.
    pub open spec fn spec_from_bits(v: u32) -> DeliveryMode {
        if v == 0b000 {
            DeliveryMode::Fixed
        } else if v == 0b001 {
            DeliveryMode::LowestPriority
        } else if v == 0b010 {
            DeliveryMode::SMI
        } else if v == 0b011 {
            DeliveryMode::_Reserved
        } else if v == 0b100 {
            DeliveryMode::NMI
        } else if v == 0b101 {
            DeliveryMode::INIT
        } else if v == 0b110 {
            DeliveryMode::StartUp
        } else {
            DeliveryMode::ExtINT
        }
    }

    /// The three-bit encoding of the mode.
    pub fn bits(&self) -> (r: u32)
        ensures
            r == self.spec_bits(),
    {
        match self {
            DeliveryMode::Fixed => 0b000,
            DeliveryMode::LowestPriority => 0b001,
            DeliveryMode::SMI => 0b010,
            DeliveryMode::_Reserved => 0b011,
            DeliveryMode::NMI => 0b100,
            DeliveryMode::INIT => 0b101,
            DeliveryMode::StartUp => 0b110,
            DeliveryMode::ExtINT => 0b111,
        }
    }
}

/// Indicates the interrupt delivery status.
#[derive(Debug, Clone, Copy, PartialEq, Eq, Structural)]
pub enum DeliveryStatus {
    /// No activity for this interrupt source, or the previous interrupt was
    /// delivered and accepted.
    Idle,
    /// An interrupt from this source has been delivered but not accepted
    /// yet.
    SendPending,
}

/// The trigger mode for interrupt delivery: edge or level sensitive.
#[derive(Debug, Clone, Copy, PartialEq, Eq, Structural)]
pub enum TriggerMode {
    Edge,
    Level,
}

impl TriggerMode {
    /// The one-bit encoding of the mode.
    pub open spec fn spec_bits(self) -> u32 {
        match self {
            TriggerMode::Edge => 0,
            TriggerMode::Level => 1,
        }
    }

    /// The one-bit encoding of the mode.
    pub fn bits(&self) -> (r: u32)
        ensures
            r == self.spec_bits(),
    {
        match self {
            TriggerMode::Edge => 0,
            TriggerMode::Level => 1,
        }
    }
}

/// The valid modes for the timer register.
#[derive(Debug, Clone, Copy, PartialEq, Eq, Structural)]
pub enum TimerMode {
    /// One-shot mode: the countdown value sits in the initial-count
    /// register.
    OneShot,
    /// Periodic mode: the interval value sits in the initial-count register.
    Periodic,
    /// TSC-deadline mode: the target value is programmed through a
    /// model-specific register.
    TscDeadline,
    /// Reserved for future use.
    _Reserved,
}

impl TimerMode {
    /// The two-bit encoding of the mode.
    pub open spec fn spec_bits(self) -> u32 {
        match self {
            TimerMode::OneShot => 0b00,
            TimerMode::Periodic => 0b01,
            TimerMode::TscDeadline => 0b10,
            TimerMode::_Reserved => 0b11,
        }
    }

    /// The two-bit encoding of the mode.
    pub fn bits(&self) -> (r: u32)
        ensures
            r == self.spec_bits(),
    {
        match self {
            TimerMode::OneShot => 0b00,
            TimerMode::Periodic => 0b01,
            TimerMode::TscDeadline => 0b10,
            TimerMode::_Reserved => 0b11,
        }
    }
}

/// Valid divisors for the timer divide configuration register.
///
/// The divisor specifies the value of the processor core clock divisor.
#[derive(Debug, Clone, Copy, PartialEq, Eq, Structural)]
pub enum Divisor {
    By2,
    By4,
    By8,
    By16,
    By32,
    By64,
    By128,
    By1,
}

impl Divisor {
    /// The four-bit encoding of the divisor (bit 2 is reserved and zero).
    pub open spec fn spec_bits(self) -> u32 {
        match self {
            Divisor::By2 => 0b0000,
            Divisor::By4 => 0b0001,
            Divisor::By8 => 0b0010,
            Divisor::By16 => 0b0011,
            Divisor::By32 => 0b1000,
            Divisor::By64 => 0b1001,
            Divisor::By128 => 0b1010,
            Divisor::By1 => 0b1011,
        }
    }

    /// The four-bit encoding of the divisor.
    pub fn bits(&self) -> (r: u32)
        ensures
            r == self.spec_bits(),
    {
        match self {
            Divisor::By2 => 0b0000,
            Divisor::By4 => 0b0001,
            Divisor::By8 => 0b0010,
            Divisor::By16 => 0b0011,
            Divisor::By32 => 0b1000,
            Divisor::By64 => 0b1001,
            Divisor::By128 => 0b1010,
            Divisor::By1 => 0b1011,
        }
    }
}

/// Divide configuration register for the timer.
#[derive(Debug, Clone, Copy, PartialEq, Eq, Structural)]
pub struct DivideConfiguration {
    pub bits: u32,
}

impl DivideConfiguration {
    /// The divisor encoded in bits 3, 1 and 0 of the register.
    pub open spec fn spec_divisor(self) -> Divisor {
        let v = self.bits & 0b1011;
        if v == 0b0000 {
            Divisor::By2
        } else if v == 0b0001 {
            Divisor::By4
        } else if v == 0b0010 {
            Divisor::By8
        } else if v == 0b0011 {
            Divisor::By16
        } else if v == 0b1000 {
            Divisor::By32
        } else if v == 0b1001 {
            Divisor::By64
        } else if v == 0b1010 {
            Divisor::By128
        } else {
            Divisor::By1
        }
    }

    /// A register word selecting the given divisor.
    pub fn new(divisor: Divisor) -> (r: Self)
        ensures
            r.bits == divisor.spec_bits(),
    {
        DivideConfiguration { bits: divisor.bits() }
    }

    /// Read the divisor back from the register word.
    pub fn divisor(&self) -> (r: Divisor)
        ensures
            r == self.spec_divisor(),
    {
        let v = self.bits & 0b1011;
        if v == 0b0000 {
            Divisor::By2
        } else if v == 0b0001 {
            Divisor::By4
        } else if v == 0b0010 {
            Divisor::By8
        } else if v == 0b0011 {
            Divisor::By16
        } else if v == 0b1000 {
            Divisor::By32
        } else if v == 0b1001 {
            Divisor::By64
        } else if v == 0b1010 {
            Divisor::By128
        } else {
            Divisor::By1
        }
    }

    /// Replace the divisor, clearing all four divisor bits first.
    pub fn set_divisor(&mut self, divisor: Divisor)
        ensures
            final(self).bits == (old(self).bits & !0b1111u32) | divisor.spec_bits(),
    {
        self.bits &= !0b1111u32;
        self.bits |= divisor.bits();
    }

    /// Assemble the register from its raw bits.
    pub fn from_bits_unchecked(bits: u32) -> (r: Self)
        ensures
            r.bits == bits,
    {
        DivideConfiguration { bits }
    }

    /// The raw register word.
    pub fn bits(&self) -> (r: u32)
        ensures
            r == self.bits,
    {
        self.bits
    }
}

/// IPI destination mode.
#[derive(Debug, Clone, Copy, PartialEq, Eq, Structural)]
pub enum DestinationMode {
    /// Physical destination mode: the destination is an APIC ID.
    Physical,
    /// Logical destination mode: one or more local APICs with a common
    /// destination logical ID.
    Logical,
}

impl DestinationMode {
    /// The one-bit encoding of the mode.
    pub open spec fn spec_bits(self) -> u32 {
        match self {
            DestinationMode::Physical => 0,
            DestinationMode::Logical => 1,
        }
    }

    /// The one-bit encoding of the mode.
    pub fn bits(&self) -> (r: u32)
        ensures
            r == self.spec_bits(),
    {
        match self {
            DestinationMode::Physical => 0,
            DestinationMode::Logical => 1,
        }
    }
}

/// For the INIT level de-assert delivery mode, [Level::Deassert] must be
/// used; for all other delivery modes, [Level::Assert] must be used.
#[derive(Debug, Clone, Copy, PartialEq, Eq, Structural)]
pub enum Level {
    Deassert,
    Assert,
}

impl Level {
    /// The one-bit encoding of the level.
    pub open spec fn spec_bits(self) -> u32 {
        match self {
            Level::Deassert => 0,
            Level::Assert => 1,
        }
    }

    /// The one-bit encoding of the level.
    pub fn bits(&self) -> (r: u32)
        ensures
            r == self.spec_bits(),
    {
        match self {
            Level::Deassert => 0,
            Level::Assert => 1,
        }
    }
}

/// Indicates whether a shorthand notation is used to specify the destination
/// of the interrupt, in place of the destination field.
#[derive(Debug, Clone, Copy, PartialEq, Eq, Structural)]
pub enum DestinationShorthand {
    /// No shorthand: the destination is specified in the destination field.
    NoShorthand,
    /// The issuing APIC is the one and only destination.
    Myself,
    /// All processors in the system, including the sender.
    AllIncludingSelf,
    /// All processors in the system, except the sender.
    AllExludingSelf,
}

impl DestinationShorthand {
    /// The two-bit encoding of the shorthand.
    pub open spec fn spec_bits(self) -> u32 {
        match self {
            DestinationShorthand::NoShorthand => 0b00,
            DestinationShorthand::Myself => 0b01,
            DestinationShorthand::AllIncludingSelf => 0b10,
            DestinationShorthand::AllExludingSelf => 0b11,
        }
    }

    /// The two-bit encoding of the shorthand.
    pub fn bits(&self) -> (r: u32)
        ensures
            r == self.spec_bits(),
    {
        match self {
            DestinationShorthand::NoShorthand => 0b00,
            DestinationShorthand::Myself => 0b01,
            DestinationShorthand::AllIncludingSelf => 0b10,
            DestinationShorthand::AllExludingSelf => 0b11,
        }
    }
}

/// The lower double-word of the interrupt command register.
///
/// A write to this word causes the IPI to be sent.
#[derive(Debug, Clone, Copy, PartialEq, Eq, Structural)]
pub struct IcrLow {
    pub bits: u32,
}

/// The lower ICR word assembled from its fields: vector in bits 7:0,
/// delivery mode in 10:8, destination mode in 11, level in 14, trigger mode
/// in 15, destination shorthand in 19:18.
pub open spec fn spec_icr_low_bits(
    vector: u8,
    delivery: DeliveryMode,
    destination: DestinationMode,
    level: Level,
    trigger: TriggerMode,
    shorthand: DestinationShorthand,
) -> u32 {
    (vector as u32) | (delivery.spec_bits() << 8) | (destination.spec_bits() << 11) | (
    level.spec_bits() << 14) | (trigger.spec_bits() << 15) | (shorthand.spec_bits() << 18)
}

impl IcrLow {
    pub fn new(
        vector: u8,
        delivery: DeliveryMode,
        destination: DestinationMode,
        level: Level,
        trigger: TriggerMode,
        shorthand: DestinationShorthand,
    ) -> (r: Self)
        ensures
            r.bits == spec_icr_low_bits(vector, delivery, destination, level, trigger, shorthand),
    {
        let mut bits = vector as u32;
        bits |= delivery.bits() << 8;
        bits |= destination.bits() << 11;
        bits |= level.bits() << 14;
        bits |= trigger.bits() << 15;
        bits |= shorthand.bits() << 18;

        Self { bits }
    }

    /// The interrupt vector: bits 7:0.
    pub fn vector(&self) -> (r: u8)
        ensures
            r == (self.bits & 0xff) as u8,
    {
        (self.bits & 0xff) as u8
    }

    /// Replace the interrupt vector.
    pub fn set_vector(&mut self, vector: u8)
        ensures
            final(self).bits == (old(self).bits & !0xffu32) | vector as u32,
    {
        self.bits &= !0xffu32;
        self.bits |= vector as u32;
    }

    /// The delivery mode: bits 10:8.
    pub fn delivery_mode(&self) -> (r: DeliveryMode)
        ensures
            r == DeliveryMode::spec_from_bits((self.bits >> 8) & 0b111),
    {
        let v = (self.bits >> 8) & 0b111;
        if v == 0b000 {
            DeliveryMode::Fixed
        } else if v == 0b001 {
            DeliveryMode::LowestPriority
        } else if v == 0b010 {
            DeliveryMode::SMI
        } else if v == 0b011 {
            DeliveryMode::_Reserved
        } else if v == 0b100 {
            DeliveryMode::NMI
        } else if v == 0b101 {
            DeliveryMode::INIT
        } else if v == 0b110 {
            DeliveryMode::StartUp
        } else {
            DeliveryMode::ExtINT
        }
    }

    /// Replace the delivery mode.
    pub fn set_delivery_mode(&mut self, mode: DeliveryMode)
        ensures
            final(self).bits == (old(self).bits & !(0b111u32 << 8)) | (mode.spec_bits() << 8),
    {
        self.bits &= !(0b111u32 << 8);
        self.bits |= mode.bits() << 8;
    }

    /// The destination mode: bit 11.
    pub fn destination_mode(&self) -> (r: DestinationMode)
        ensures
            r == if (self.bits >> 11) & 1 == 0 {
                DestinationMode::Physical
            } else {
                DestinationMode::Logical
            },
    {
        if (self.bits >> 11) & 1 == 0 {
            DestinationMode::Physical
        } else {
            DestinationMode::Logical
        }
    }

    /// Replace the destination mode.
    pub fn set_destination_mode(&mut self, mode: DestinationMode)
        ensures
            final(self).bits == (old(self).bits & !(1u32 << 11)) | (mode.spec_bits() << 11),
    {
        self.bits &= !(1u32 << 11);
        self.bits |= mode.bits() << 11;
    }

    /// The delivery status: bit 12 (read-only, set by hardware).
    pub fn delivery_status(&self) -> (r: DeliveryStatus)
        ensures
            r == if (self.bits >> 12) & 1 == 0 {
                DeliveryStatus::Idle
            } else {
                DeliveryStatus::SendPending
            },
    {
        if (self.bits >> 12) & 1 == 0 {
            DeliveryStatus::Idle
        } else {
            DeliveryStatus::SendPending
        }
    }

    /// The level: bit 14.
    pub fn level(&self) -> (r: Level)
        ensures
            r == if (self.bits >> 14) & 1 == 0 {
                Level::Deassert
            } else {
                Level::Assert
            },
    {
        if (self.bits >> 14) & 1 == 0 {
            Level::Deassert
        } else {
            Level::Assert
        }
    }

    /// Replace the level.
    pub fn set_level(&mut self, level: Level)
        ensures
            final(self).bits == (old(self).bits & !(1u32 << 14)) | (level.spec_bits() << 14),
    {
        self.bits &= !(1u32 << 14);
        self.bits |= level.bits() << 14;
    }

    /// The trigger mode: bit 15.
    pub fn trigger_mode(&self) -> (r: TriggerMode)
        ensures
            r == if (self.bits >> 15) & 1 == 0 {
                TriggerMode::Edge
            } else {
                TriggerMode::Level
            },
    {
        if (self.bits >> 15) & 1 == 0 {
            TriggerMode::Edge
        } else {
            TriggerMode::Level
        }
    }

    /// Replace the trigger mode.
    pub fn set_trigger_mode(&mut self, mode: TriggerMode)
        ensures
            final(self).bits == (old(self).bits & !(1u32 << 15)) | (mode.spec_bits() << 15),
    {
        self.bits &= !(1u32 << 15);
        self.bits |= mode.bits() << 15;
    }

    /// The destination shorthand: bits 19:18.
    pub fn destination_shorthand(&self) -> (r: DestinationShorthand)
        ensures
            r == ({
                let v = (self.bits >> 18) & 0b11;
                if v == 0b00 {
                    DestinationShorthand::NoShorthand
                } else if v == 0b01 {
                    DestinationShorthand::Myself
                } else if v == 0b10 {
                    DestinationShorthand::AllIncludingSelf
                } else {
                    DestinationShorthand::AllExludingSelf
                }
            }),
    {
        let v = (self.bits >> 18) & 0b11;
        if v == 0b00 {
            DestinationShorthand::NoShorthand
        } else if v == 0b01 {
            DestinationShorthand::Myself
        } else if v == 0b10 {
            DestinationShorthand::AllIncludingSelf
        } else {
            DestinationShorthand::AllExludingSelf
        }
    }

    /// Replace the destination shorthand.
    pub fn set_destination_shorthand(&mut self, shorthand: DestinationShorthand)
        ensures
            final(self).bits == (old(self).bits & !(0b11u32 << 18)) | (shorthand.spec_bits()
                << 18),
    {
        self.bits &= !(0b11u32 << 18);
        self.bits |= shorthand.bits() << 18;
    }

    /// Assemble the register from its raw bits.
    pub fn from_bits_unchecked(bits: u32) -> (r: Self)
        ensures
            r.bits == bits,
    {
        Self { bits }
    }

    /// The raw register word.
    pub fn bits(&self) -> (r: u32)
        ensures
            r == self.bits,
    {
        self.bits
    }
}

/// The upper double-word of the interrupt command register, holding the
/// destination.
#[derive(Debug, Clone, Copy, PartialEq, Eq, Structural)]
pub struct IcrHigh {
    pub bits: u32,
}

impl IcrHigh {
    /// An empty destination word.
    pub fn new() -> (r: Self)
        ensures
            r.bits == 0,
    {
        IcrHigh { bits: 0 }
    }

    /// The xAPIC destination: an 8-bit APIC ID in bits 31:24.
    pub fn new_xapic_destination(dest: u8) -> (r: Self)
        ensures
            r.bits == (dest as u32) << 24,
    {
        Self { bits: (dest as u32) << 24 }
    }

    /// The x2APIC destination: a full 32-bit APIC ID.
    pub fn new_x2apic_destination(dest: u32) -> (r: Self)
        ensures
            r.bits == dest,
    {
        Self { bits: dest }
    }

    /// Read the destination as an xAPIC (8-bit) APIC ID.
    pub fn xapic_destination(&self) -> (r: u8)
        ensures
            r == (self.bits >> 24) as u8,
    {
        (self.bits >> 24) as u8
    }

    /// Replace the destination with an xAPIC (8-bit) APIC ID.
    pub fn set_xapic_destination(&mut self, destination: u8)
        ensures
            final(self).bits == (destination as u32) << 24,
    {
        self.bits = (destination as u32) << 24;
    }

    /// Read the destination as an x2APIC (32-bit) APIC ID.
    pub fn x2apic_destination(&self) -> (r: u32)
        ensures
            r == self.bits,
    {
        self.bits
    }

    /// Replace the destination with an x2APIC (32-bit) APIC ID.
    pub fn set_x2apic_destination(&mut self, destination: u32)
        ensures
            final(self).bits == destination,
    {
        self.bits = destination;
    }

    /// Assemble the register from its raw bits.
    pub fn from_bits_unchecked(bits: u32) -> (r: Self)
        ensures
            r.bits == bits,
    {
        Self { bits }
    }

    /// The raw register word.
    pub fn bits(&self) -> (r: u32)
        ensures
            r == self.bits,
    {
        self.bits
    }
}

/// Interrupt command register.
///
/// The primary facility for issuing inter-processor interrupts.  In xAPIC
/// mode the register is accessed as two 32-bit words, and writing the low
/// word sends the IPI; in x2APIC mode it is one 64-bit model-specific
/// register.
#[derive(Debug, Clone, Copy, PartialEq, Eq, Structural)]
pub struct Icr {
    pub high: IcrHigh,
    pub low: IcrLow,
}

impl Icr {
    pub fn new(low: IcrLow, high: IcrHigh) -> (r: Self)
        ensures
            r.low == low,
            r.high == high,
    {
        Self { low, high }
    }

    /// Split a 64-bit register value into the two words.
    pub fn from_bits64_unchecked(bits: u64) -> (r: Self)
        ensures
            r.high.bits == (bits >> 32) as u32,
            r.low.bits == (bits & 0xffff_ffff) as u32,
    {
        Self::from_bits_unchecked((bits >> 32) as u32, (bits & 0xffff_ffff) as u32)
    }

    /// Assemble the register from its two raw words.
    pub fn from_bits_unchecked(high: u32, low: u32) -> (r: Self)
        ensures
            r.high.bits == high,
            r.low.bits == low,
    {
        Icr { high: IcrHigh::from_bits_unchecked(high), low: IcrLow::from_bits_unchecked(low) }
    }

    /// The combined 64-bit register value.
    pub fn bits(&self) -> (r: u64)
        ensures
            r == ((self.high.bits as u64) << 32) | (self.low.bits as u64),
    {
        ((self.high.bits() as u64) << 32) | (self.low.bits() as u64)
    }
}

} // verus!
