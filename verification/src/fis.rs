//! Frame Information Structures: the SATA link-layer message formats
//! exchanged between the host and the device, and the received-FIS area
//! a port writes incoming structures into.

pub mod command_list_structure;
pub mod command_table;
pub mod data;
pub mod dma_setup;
pub mod pio_setup;
pub mod regd2h;
pub mod regh2d;

use vstd::prelude::*;

use crate::fis::dma_setup::DmaSetup;
use crate::fis::pio_setup::PioSetup;
use crate::fis::regd2h::RegD2H;

verus! {

/// The FIS type codes carried in the first byte of every frame.
#[derive(Debug, Clone, Copy, PartialEq, Eq, Structural)]
#[allow(non_camel_case_types)]
pub enum Type {
    /// Register FIS, host to device.
    REG_H2D,
    /// Register FIS, device to host.
    REG_D2H,
    /// DMA activate FIS, device to host.
    DMA_ACT,
    /// DMA setup FIS, bidirectional.
    DMA_SETUP,
    /// Data FIS, bidirectional.
    DATA,
    /// BIST activate FIS, bidirectional.
    BIST,
    /// PIO setup FIS, device to host.
    PIO_SETUP,
    /// Set device bits FIS, device to host.
    DEV_BITS,
}

impl Type {
    /// The wire code of this FIS type.
    pub open spec fn spec_value(self) -> u8 {
        match self {
            Type::REG_H2D => 0x27,
            Type::REG_D2H => 0x34,
            Type::DMA_ACT => 0x39,
            Type::DMA_SETUP => 0x41,
            Type::DATA => 0x46,
            Type::BIST => 0x58,
            Type::PIO_SETUP => 0x5f,
            Type::DEV_BITS => 0xa1,
        }
    }

    /// The wire code of this FIS type, as stored in the first byte of
    /// the frame.
    pub fn value(self) -> (r: u8)
        ensures
            r == self.spec_value(),
    {
        match self {
            Type::REG_H2D => 0x27,
            Type::REG_D2H => 0x34,
            Type::DMA_ACT => 0x39,
            Type::DMA_SETUP => 0x41,
            Type::DATA => 0x46,
            Type::BIST => 0x58,
            Type::PIO_SETUP => 0x5f,
            Type::DEV_BITS => 0xa1,
        }
    }

    /// The FIS type a wire code names, if any.
    pub fn from_value(value: u8) -> (r: Option<Self>)
        ensures
            match r {
                Some(t) => t.spec_value() == value,
                None => forall|t: Type| #[trigger] t.spec_value() != value,
            },
    {
        match value {
            0x27 => Some(Type::REG_H2D),
            0x34 => Some(Type::REG_D2H),
            0x39 => Some(Type::DMA_ACT),
            0x41 => Some(Type::DMA_SETUP),
            0x46 => Some(Type::DATA),
            0x58 => Some(Type::BIST),
            0x5f => Some(Type::PIO_SETUP),
            0xa1 => Some(Type::DEV_BITS),
            _ => None,
        }
    }
}

/// The received-FIS area.  PxFB points at a 256-byte region of this
/// layout, which the hardware fills keyed by incoming FIS type:
/// DMA-setup at offset 0, PIO-setup at 0x20, register D2H at 0x40,
/// set-device-bits at 0x58 and unknown frames at 0x60.  Without
/// FIS-based switching the region must be 256-byte aligned.
pub struct ReceivedFis {
    /// DMA setup FIS.
    pub dsfis: DmaSetup,
    /// PIO setup FIS.
    pub psfis: PioSetup,
    /// Register FIS, device to host.
    pub rfis: RegD2H,
    /// Set device bits FIS.
    pub sdbfis: [u8; 8],
    /// Unknown FIS.
    pub ufis: [u8; 64],
}

impl ReceivedFis {
    /// Every byte of the area zeroed, as the port bring-up protocol
    /// demands before the FIS base address is handed to the hardware.
    pub fn default() -> (r: Self)
        ensures
            r.dsfis == DmaSetup::spec_default(),
            r.psfis == PioSetup::spec_default(),
            r.rfis == RegD2H::spec_default(),
            forall|i: int| 0 <= i < 8 ==> r.sdbfis@[i] == 0u8,
            forall|i: int| 0 <= i < 64 ==> r.ufis@[i] == 0u8,
    {
        Self {
            dsfis: DmaSetup::default(),
            psfis: PioSetup::default(),
            rfis: RegD2H::default(),
            sdbfis: [0u8; 8],
            ufis: [0u8; 64],
        }
    }
}

} // verus!
