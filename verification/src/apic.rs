//! The local advanced interrupt controller, as far as the boot sequence
//! drives it: building the inter-processor interrupt commands that reset and
//! start secondary processors.
//!
//! The controller itself is hardware.  This module computes the exact
//! register values the bring-up protocol writes; performing the writes (a
//! memory-mapped store in xAPIC mode, a model-specific register write in
//! x2APIC mode) is the hardware layer's task.

use vstd::prelude::*;

use crate::apic::registers::DeliveryMode;
use crate::apic::registers::DestinationMode;
use crate::apic::registers::DestinationShorthand;
use crate::apic::registers::Icr;
use crate::apic::registers::IcrHigh;
use crate::apic::registers::IcrLow;
use crate::apic::registers::Level;
use crate::apic::registers::TriggerMode;
use crate::apic::registers::spec_icr_low_bits;
use crate::apic::registers::ICR_HIGH_REG;
use crate::apic::registers::ICR_LOW_REG;
use crate::apic::registers::X2APIC_MSR_BASE;

pub mod registers;

verus! {

/// One step of sending an interrupt command.  The legacy controller's
/// command register must not be written while a previous delivery is in
/// flight, so a send brackets its two register writes with waits on the
/// delivery-status bit; the newer controller's single register write needs
/// neither.
#[derive(Debug, Clone, Copy, PartialEq, Eq, Structural)]
pub enum IpiStep {
    /// Spin until the delivery-status bit of the low command register reads
    /// idle.
    WaitIdle,
    /// Write the value to the register (or register-equivalent machine
    /// register).
    Write(u32, u64),
}

/// Local APIC.
///
/// Identifies which flavour of controller the processor carries, and where
/// its registers live, so commands can be encoded for it.
#[derive(Debug, Clone, Copy, PartialEq, Eq, Structural)]
pub enum LocalApic {
    /// Backed by xAPIC: registers live in a memory-mapped page at the given
    /// physical address.
    XApic(u64),
    /// Backed by x2APIC: registers are model-specific registers.
    X2Apic,
}

/// The lower command word of an INIT inter-processor interrupt.
pub open spec fn spec_init_low() -> u32 {
    spec_icr_low_bits(
        0,
        DeliveryMode::INIT,
        DestinationMode::Physical,
        Level::Assert,
        TriggerMode::Edge,
        DestinationShorthand::NoShorthand,
    )
}

/// The lower command word of a STARTUP inter-processor interrupt with the
/// given bootstrap page number.
pub open spec fn spec_startup_low(bootstrap: u8) -> u32 {
    spec_icr_low_bits(
        bootstrap,
        DeliveryMode::StartUp,
        DestinationMode::Physical,
        Level::Assert,
        TriggerMode::Edge,
        DestinationShorthand::NoShorthand,
    )
}

/// The destination word addressing `apic_id` on the given controller
/// flavour: the low 8 bits shifted into bits 31:24 for the xAPIC, the full
/// 32-bit ID for the x2APIC.
pub open spec fn spec_destination_high(apic: LocalApic, apic_id: u32) -> u32 {
    match apic {
        LocalApic::XApic(_) => (apic_id as u8 as u32) << 24,
        LocalApic::X2Apic => apic_id,
    }
}

impl LocalApic {
    /// Build the INIT inter-processor interrupt command for the target APIC.
    ///
    /// Writing the returned command resets the target into the INIT state,
    /// where it waits for a STARTUP inter-processor interrupt.
    pub fn ipi_init(&self, apic_id: u32) -> (r: Icr)
        ensures
            r.low.bits == spec_init_low(),
            r.high.bits == spec_destination_high(*self, apic_id),
    {
        let low = IcrLow::new(
            0,
            DeliveryMode::INIT,
            DestinationMode::Physical,
            Level::Assert,
            TriggerMode::Edge,
            DestinationShorthand::NoShorthand,
        );

        let high = if matches!(self, LocalApic::XApic(_)) {
            IcrHigh::new_xapic_destination(apic_id as u8)
        } else {
            IcrHigh::new_x2apic_destination(apic_id)
        };

        Icr::new(low, high)
    }

    /// Build the INIT level de-assert command, a synchronization message to
    /// all local APICs in the system to set their arbitration IDs to the
    /// values of their APIC IDs.
    pub fn ipi_init_deassert(&self) -> (r: Icr)
        ensures
            r.low.bits == spec_icr_low_bits(
                0,
                DeliveryMode::INIT,
                DestinationMode::Physical,
                Level::Deassert,
                TriggerMode::Level,
                DestinationShorthand::AllIncludingSelf,
            ),
            r.high.bits == 0,
    {
        let low = IcrLow::new(
            0,
            DeliveryMode::INIT,
            DestinationMode::Physical,  // destination mode doesn't matter.
            Level::Deassert,
            TriggerMode::Level,
            DestinationShorthand::AllIncludingSelf,
        );

        let high = IcrHigh::new();

        Icr::new(low, high)
    }

    /// Build the STARTUP inter-processor interrupt command for the target
    /// APIC.
    ///
    /// After receiving it, the target begins executing the bootstrap routine
    /// located at `bootstrap * 4096`.
    pub fn ipi_startup(&self, apic_id: u32, bootstrap: u8) -> (r: Icr)
        ensures
            r.low.bits == spec_startup_low(bootstrap),
            r.high.bits == spec_destination_high(*self, apic_id),
    {
        let low = IcrLow::new(
            bootstrap,
            DeliveryMode::StartUp,
            DestinationMode::Physical,
            Level::Assert,
            TriggerMode::Edge,
            DestinationShorthand::NoShorthand,
        );
        let high = if matches!(self, LocalApic::XApic(_)) {
            IcrHigh::new_xapic_destination(apic_id as u8)
        } else {
            IcrHigh::new_x2apic_destination(apic_id)
        };

        Icr::new(low, high)
    }

    /// The register writes that issue the given command: two 32-bit writes
    /// (high word first, since the low write sends) on the xAPIC, one
    /// 64-bit write to the translated model-specific register on the
    /// x2APIC.
    ///
    /// The caller must perform the writes in order on the hardware.
    pub fn ipi(&self, icr: Icr) -> (r: Vec<IpiStep>)
        ensures
            *self matches LocalApic::XApic(_) ==> r@ == seq![
                IpiStep::WaitIdle,
                (IpiStep::Write(ICR_HIGH_REG, icr.high.bits as u64)),
                (IpiStep::Write(ICR_LOW_REG, icr.low.bits as u64)),
                IpiStep::WaitIdle,
            ],
            *self == LocalApic::X2Apic ==> r@ == seq![
                (IpiStep::Write(
                    (X2APIC_MSR_BASE + (ICR_LOW_REG >> 4)) as u32,
                    ((icr.high.bits as u64) << 32) | (icr.low.bits as u64),
                )),
            ],
    {
        let mut steps: Vec<IpiStep> = Vec::new();
        match self {
            LocalApic::XApic(_) => {
                steps.push(IpiStep::WaitIdle);
                steps.push(IpiStep::Write(ICR_HIGH_REG, icr.high.bits() as u64));
                steps.push(IpiStep::Write(ICR_LOW_REG, icr.low.bits() as u64));
                steps.push(IpiStep::WaitIdle);
            },
            LocalApic::X2Apic => {
                proof {
                    assert(0x300u32 >> 4 == 0x30u32) by (bit_vector);
                }
                steps.push(IpiStep::Write(X2APIC_MSR_BASE + (ICR_LOW_REG >> 4), icr.bits()));
            },
        }
        proof {
            assert(steps@ =~= if *self matches LocalApic::XApic(_) {
                seq![
                    IpiStep::WaitIdle,
                    (IpiStep::Write(ICR_HIGH_REG, icr.high.bits as u64)),
                    (IpiStep::Write(ICR_LOW_REG, icr.low.bits as u64)),
                    IpiStep::WaitIdle,
                ]
            } else {
                seq![
                    (IpiStep::Write(
                        (X2APIC_MSR_BASE + (ICR_LOW_REG >> 4)) as u32,
                        ((icr.high.bits as u64) << 32) | (icr.low.bits as u64),
                    )),
                ]
            });
        }
        steps
    }
}

} // verus!
