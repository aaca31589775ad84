//! The register FIS, device to host: the frame by which the device
//! reports a status and error snapshot back to the driver.

use vstd::prelude::*;

verus! {

/// A device-to-host register FIS.
#[derive(Debug, Clone, Copy, PartialEq, Eq, Structural)]
pub struct RegD2H {
    /// FIS type code; always `Type::REG_D2H`.
    pub fis_type: u8,
    /// Port multiplier port in bits 7:4, interrupt bit in bit 1.
    pub pmport_cc: u8,
    /// Status register.
    pub status: u8,
    /// Error register.
    pub error: u8,
    /// LBA low register, bits 7:0.
    pub lba0: u8,
    /// LBA mid register, bits 15:8.
    pub lba1: u8,
    /// LBA high register, bits 23:16.
    pub lba2: u8,
    /// Device register.
    pub device: u8,
    /// LBA register, bits 31:24.
    pub lba3: u8,
    /// LBA register, bits 39:32.
    pub lba4: u8,
    /// LBA register, bits 47:40.
    pub lba5: u8,
    /// Count register, bits 7:0.
    pub countl: u8,
    /// Count register, bits 15:8.
    pub counth: u8,
}

impl RegD2H {
    /// The frame with the type code set and every other byte zero.
    pub open spec fn spec_default() -> Self {
        RegD2H {
            fis_type: 0x34,
            pmport_cc: 0,
            status: 0,
            error: 0,
            lba0: 0,
            lba1: 0,
            lba2: 0,
            device: 0,
            lba3: 0,
            lba4: 0,
            lba5: 0,
            countl: 0,
            counth: 0,
        }
    }

    pub fn default() -> (r: Self)
        ensures
            r == Self::spec_default(),
    {
        Self {
            fis_type: 0x34,
            pmport_cc: 0,
            status: 0,
            error: 0,
            lba0: 0,
            lba1: 0,
            lba2: 0,
            device: 0,
            lba3: 0,
            lba4: 0,
            lba5: 0,
            countl: 0,
            counth: 0,
        }
    }
}

} // verus!
