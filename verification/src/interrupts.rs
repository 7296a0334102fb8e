//! Interrupts and exceptions.
//!
//! Exceptions are synchronous: they are the result of executing an
//! instruction.  A fault saves the instruction pointer of the faulting
//! instruction, a trap that of the one after it, and aborts are generally
//! unrecoverable.

use vstd::prelude::*;

pub mod handler;
pub mod idt;

verus! {

/// The architectural exception vectors handled at boot.
#[derive(Debug, Clone, Copy, PartialEq, Eq, Structural)]
pub enum Vector {
    DivideByZeroError,
    Debug,
    NonMaskableInterrupt,
    Breakpoint,
    InvalidOpcode,
    DeviceNotAvailable,
    DoubleFault,
    InvalidTSS,
    SegmentNotPresent,
    Stack,
    GeneralProtection,
    PageFault,
    X87FloatingpointEx,
    AlignmentCheck,
    MachineCheck,
    SIMDFloatingPoint,
    ControlProtectionEx,
    HypervisorInjectionEx,
    VMMCommunicationEx,
    SecurityException,
}

impl Vector {
    /// The architectural vector number.
    pub open spec fn spec_number(self) -> u8 {
        match self {
            Vector::DivideByZeroError => 0,
            Vector::Debug => 1,
            Vector::NonMaskableInterrupt => 2,
            Vector::Breakpoint => 3,
            Vector::InvalidOpcode => 4,
            Vector::DeviceNotAvailable => 5,
            Vector::DoubleFault => 6,
            Vector::InvalidTSS => 10,
            Vector::SegmentNotPresent => 11,
            Vector::Stack => 12,
            Vector::GeneralProtection => 13,
            Vector::PageFault => 14,
            Vector::X87FloatingpointEx => 16,
            Vector::AlignmentCheck => 17,
            Vector::MachineCheck => 18,
            Vector::SIMDFloatingPoint => 19,
            Vector::ControlProtectionEx => 21,
            Vector::HypervisorInjectionEx => 28,
            Vector::VMMCommunicationEx => 29,
            Vector::SecurityException => 30,
        }
    }

    /// The architectural vector number.
    pub fn number(&self) -> (r: u8)
        ensures
            r == self.spec_number(),
    {
        match self {
            Vector::DivideByZeroError => 0,
            Vector::Debug => 1,
            Vector::NonMaskableInterrupt => 2,
            Vector::Breakpoint => 3,
            Vector::InvalidOpcode => 4,
            Vector::DeviceNotAvailable => 5,
            Vector::DoubleFault => 6,
            Vector::InvalidTSS => 10,
            Vector::SegmentNotPresent => 11,
            Vector::Stack => 12,
            Vector::GeneralProtection => 13,
            Vector::PageFault => 14,
            Vector::X87FloatingpointEx => 16,
            Vector::AlignmentCheck => 17,
            Vector::MachineCheck => 18,
            Vector::SIMDFloatingPoint => 19,
            Vector::ControlProtectionEx => 21,
            Vector::HypervisorInjectionEx => 28,
            Vector::VMMCommunicationEx => 29,
            Vector::SecurityException => 30,
        }
    }
}

} // verus!
