//! The extended host capabilities register (CAP2).

use vstd::prelude::*;

use crate::bit;

verus! {

/// The CAP2 register, decoded by pure mask accessors.
#[derive(Debug, Clone, Copy, PartialEq, Eq, Structural)]
pub struct CapabilitiesExtended(pub u32);

impl CapabilitiesExtended {
    /// DevSleep entrance from slumber only.
    pub open spec fn deso(self) -> bool {
        bit(self.0, 5)
    }

    /// Supports aggressive device sleep management.
    pub open spec fn sadm(self) -> bool {
        bit(self.0, 4)
    }

    /// Supports device sleep.
    pub open spec fn sds(self) -> bool {
        bit(self.0, 3)
    }

    /// Automatic partial to slumber transitions.
    pub open spec fn apst(self) -> bool {
        bit(self.0, 2)
    }

    /// NVMHCI present.
    pub open spec fn nvmp(self) -> bool {
        bit(self.0, 1)
    }

    /// BIOS/OS handoff supported.
    pub open spec fn boh(self) -> bool {
        bit(self.0, 0)
    }

    pub fn from_raw(value: u32) -> (r: Self)
        ensures
            r.0 == value,
    {
        Self(value)
    }

    pub fn get_raw(self) -> (r: u32)
        ensures
            r == self.0,
    {
        self.0
    }

    /// DevSleep entrance from slumber only.
    pub fn get_deso(self) -> (r: bool)
        ensures
            r == self.deso(),
    {
        self.0 & (1u32 << 5) != 0
    }

    /// Supports aggressive device sleep management.
    pub fn get_sadm(self) -> (r: bool)
        ensures
            r == self.sadm(),
    {
        self.0 & (1u32 << 4) != 0
    }

    /// Supports device sleep.
    pub fn get_sds(self) -> (r: bool)
        ensures
            r == self.sds(),
    {
        self.0 & (1u32 << 3) != 0
    }

    /// Automatic partial to slumber transitions.
    pub fn get_apst(self) -> (r: bool)
        ensures
            r == self.apst(),
    {
        self.0 & (1u32 << 2) != 0
    }

    /// NVMHCI present.
    pub fn get_nvmp(self) -> (r: bool)
        ensures
            r == self.nvmp(),
    {
        self.0 & (1u32 << 1) != 0
    }

    /// BIOS/OS handoff supported.  Only when this bit is set is the
    /// BOHC register meaningful and the firmware handshake required.
    pub fn get_boh(self) -> (r: bool)
        ensures
            r == self.boh(),
    {
        self.0 & (1u32 << 0) != 0
    }
}

} // verus!
