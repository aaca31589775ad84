//! The PIO setup FIS, device to host.

use vstd::prelude::*;

verus! {

/// A PIO setup FIS.  The device sends it ahead of a PIO data transfer;
/// the driver never transmits one.
#[derive(Debug, Clone, Copy, PartialEq, Eq, Structural)]
pub struct PioSetup {
    /// FIS type code; always `Type::PIO_SETUP`.
    pub fis_type: u8,
    /// Port multiplier port in bits 7:4, transfer direction in bit 2
    /// (1 means device to host), interrupt bit in bit 1.
    pub pmport_di: u8,
    /// Status register.
    pub status: u8,
    /// Error register.
    pub error: u8,
    /// LBA low register, bits 7:0.
    pub lba0: u8,
    /// LBA mid register, bits 15:8.
    pub lba1: u8,
    /// LBA high register, bits 23:16.
    pub lba2: u8,
    /// Device register.
    pub device: u8,
    /// LBA register, bits 31:24.
    pub lba3: u8,
    /// LBA register, bits 39:32.
    pub lba4: u8,
    /// LBA register, bits 47:40.
    pub lba5: u8,
    /// Count register, bits 7:0.
    pub countl: u8,
    /// Count register, bits 15:8.
    pub counth: u8,
    /// New value of the status register.
    pub e_status: u8,
    /// Transfer count.
    pub tc: u16,
}

impl PioSetup {
    /// The frame with the type code set and every other field zero.
    pub open spec fn spec_default() -> Self {
        PioSetup {
            fis_type: 0x5f,
            pmport_di: 0,
            status: 0,
            error: 0,
            lba0: 0,
            lba1: 0,
            lba2: 0,
            device: 0,
            lba3: 0,
            lba4: 0,
            lba5: 0,
            countl: 0,
            counth: 0,
            e_status: 0,
            tc: 0,
        }
    }

    pub fn default() -> (r: Self)
        ensures
            r == Self::spec_default(),
    {
        Self {
            fis_type: 0x5f,
            pmport_di: 0,
            status: 0,
            error: 0,
            lba0: 0,
            lba1: 0,
            lba2: 0,
            device: 0,
            lba3: 0,
            lba4: 0,
            lba5: 0,
            countl: 0,
            counth: 0,
            e_status: 0,
            tc: 0,
        }
    }
}

} // verus!
