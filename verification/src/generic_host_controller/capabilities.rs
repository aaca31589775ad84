//! The host capabilities register (CAP): an immutable snapshot of the
//! features the HBA advertises.

use vstd::prelude::*;

use crate::bit;
use crate::lemma_field_extract;
use crate::generic_host_controller::interfacespeed::InterfaceSpeed;

verus! {

/// The CAP register, decoded by pure mask-and-shift accessors.
#[derive(Debug, Clone, Copy, PartialEq, Eq, Structural)]
pub struct Capabilities(pub u32);

impl Capabilities {
    /// Supports 64-bit addressing.
    pub open spec fn s64a(self) -> bool {
        bit(self.0, 31)
    }

    /// Supports native command queuing.
    pub open spec fn sncq(self) -> bool {
        bit(self.0, 30)
    }

    /// Supports SNotification register.
    pub open spec fn ssntf(self) -> bool {
        bit(self.0, 29)
    }

    /// Supports mechanical presence switch.
    pub open spec fn smps(self) -> bool {
        bit(self.0, 28)
    }

    /// Supports staggered spin-up.
    pub open spec fn sss(self) -> bool {
        bit(self.0, 27)
    }

    /// Supports aggressive link power management.
    pub open spec fn salp(self) -> bool {
        bit(self.0, 26)
    }

    /// Supports activity LED.
    pub open spec fn sal(self) -> bool {
        bit(self.0, 25)
    }

    /// Supports command list override.
    pub open spec fn sclo(self) -> bool {
        bit(self.0, 24)
    }

    /// Interface speed support, as the raw 4-bit field.
    pub open spec fn iss(self) -> u32 {
        (self.0 >> 20) & 0xf
    }

    /// Supports AHCI mode only.
    pub open spec fn sam(self) -> bool {
        bit(self.0, 18)
    }

    /// Supports port multiplier.
    pub open spec fn spm(self) -> bool {
        bit(self.0, 17)
    }

    /// FIS-based switching supported.
    pub open spec fn fbss(self) -> bool {
        bit(self.0, 16)
    }

    /// PIO multiple DRQ block.
    pub open spec fn pmd(self) -> bool {
        bit(self.0, 15)
    }

    /// Slumber state capable.
    pub open spec fn ssc(self) -> bool {
        bit(self.0, 14)
    }

    /// Partial state capable.
    pub open spec fn psc(self) -> bool {
        bit(self.0, 13)
    }

    /// Number of command slots per port, zero-based.
    pub open spec fn ncs(self) -> u32 {
        (self.0 >> 8) & 0x1f
    }

    /// Command completion coalescing supported.
    pub open spec fn cccs(self) -> bool {
        bit(self.0, 7)
    }

    /// Enclosure management supported.
    pub open spec fn ems(self) -> bool {
        bit(self.0, 6)
    }

    /// Supports external SATA.
    pub open spec fn sxs(self) -> bool {
        bit(self.0, 5)
    }

    /// Number of ports, zero-based.
    pub open spec fn np(self) -> u32 {
        self.0 & 0x1f
    }

    /// The bits of the register that carry a defined field; bit 19 is
    /// reserved.
    pub open spec fn relevant_mask() -> u32 {
        0xfff7_ffff
    }

    /// The register value rebuilt from the decoded fields.
    pub open spec fn reencode(self) -> u32 {
        (if self.s64a() { 0x8000_0000u32 } else { 0u32 })
        | (if self.sncq() { 0x4000_0000u32 } else { 0u32 })
        | (if self.ssntf() { 0x2000_0000u32 } else { 0u32 })
        | (if self.smps() { 0x1000_0000u32 } else { 0u32 })
        | (if self.sss() { 0x0800_0000u32 } else { 0u32 })
        | (if self.salp() { 0x0400_0000u32 } else { 0u32 })
        | (if self.sal() { 0x0200_0000u32 } else { 0u32 })
        | (if self.sclo() { 0x0100_0000u32 } else { 0u32 })
        | (self.iss() << 20)
        | (if self.sam() { 0x0004_0000u32 } else { 0u32 })
        | (if self.spm() { 0x0002_0000u32 } else { 0u32 })
        | (if self.fbss() { 0x0001_0000u32 } else { 0u32 })
        | (if self.pmd() { 0x0000_8000u32 } else { 0u32 })
        | (if self.ssc() { 0x0000_4000u32 } else { 0u32 })
        | (if self.psc() { 0x0000_2000u32 } else { 0u32 })
        | (self.ncs() << 8)
        | (if self.cccs() { 0x0000_0080u32 } else { 0u32 })
        | (if self.ems() { 0x0000_0040u32 } else { 0u32 })
        | (if self.sxs() { 0x0000_0020u32 } else { 0u32 })
        | self.np()
    }

    pub fn from_raw(value: u32) -> (r: Self)
        ensures
            r.0 == value,
    {
        Self(value)
    }

    pub fn get_raw(self) -> (r: u32)
        ensures
            r == self.0,
    {
        self.0
    }

    /// Supports 64-bit addressing.
    pub fn get_s64a(self) -> (r: bool)
        ensures
            r == self.s64a(),
    {
        self.0 & (1u32 << 31) != 0
    }

    /// Supports native command queuing.
    pub fn get_sncq(self) -> (r: bool)
        ensures
            r == self.sncq(),
    {
        self.0 & (1u32 << 30) != 0
    }

    /// Supports SNotification register.
    pub fn get_ssntf(self) -> (r: bool)
        ensures
            r == self.ssntf(),
    {
        self.0 & (1u32 << 29) != 0
    }

    /// Supports mechanical presence switch.
    pub fn get_smps(self) -> (r: bool)
        ensures
            r == self.smps(),
    {
        self.0 & (1u32 << 28) != 0
    }

    /// Supports staggered spin-up.
    pub fn get_sss(self) -> (r: bool)
        ensures
            r == self.sss(),
    {
        self.0 & (1u32 << 27) != 0
    }

    /// Supports aggressive link power management.
    pub fn get_salp(self) -> (r: bool)
        ensures
            r == self.salp(),
    {
        self.0 & (1u32 << 26) != 0
    }

    /// Supports activity LED.
    pub fn get_sal(self) -> (r: bool)
        ensures
            r == self.sal(),
    {
        self.0 & (1u32 << 25) != 0
    }

    /// Supports command list override.
    pub fn get_sclo(self) -> (r: bool)
        ensures
            r == self.sclo(),
    {
        self.0 & (1u32 << 24) != 0
    }

    /// Interface speed support.
    pub fn get_iss(self) -> (r: InterfaceSpeed)
        ensures
            r.0 as u32 == self.iss(),
    {
        proof {
            lemma_field_extract(self.0);
        }
        InterfaceSpeed(((self.0 & 0x00f0_0000) >> 20) as u8)
    }

    /// Supports AHCI mode only.
    pub fn get_sam(self) -> (r: bool)
        ensures
            r == self.sam(),
    {
        self.0 & (1u32 << 18) != 0
    }

    /// Supports port multiplier.
    pub fn get_spm(self) -> (r: bool)
        ensures
            r == self.spm(),
    {
        self.0 & (1u32 << 17) != 0
    }

    /// FIS-based switching supported.
    pub fn get_fbss(self) -> (r: bool)
        ensures
            r == self.fbss(),
    {
        self.0 & (1u32 << 16) != 0
    }

    /// PIO multiple DRQ block.
    pub fn get_pmd(self) -> (r: bool)
        ensures
            r == self.pmd(),
    {
        self.0 & (1u32 << 15) != 0
    }

    /// Slumber state capable.
    pub fn get_ssc(self) -> (r: bool)
        ensures
            r == self.ssc(),
    {
        self.0 & (1u32 << 14) != 0
    }

    /// Partial state capable.
    pub fn get_psc(self) -> (r: bool)
        ensures
            r == self.psc(),
    {
        self.0 & (1u32 << 13) != 0
    }

    /// Number of command slots per port, as provided by the hardware:
    /// 0 means 1 slot, 31 means 32 slots.
    pub fn get_ncs(self) -> (r: u8)
        ensures
            r as u32 == self.ncs(),
            r < 32,
    {
        proof {
            lemma_field_extract(self.0);
        }
        ((self.0 & 0x0000_1f00) >> 8) as u8
    }

    /// Number of command slots per port, adjusted so 1 means 1 slot and
    /// 32 means 32 slots.
    pub fn get_ncs_adjusted(self) -> (r: u8)
        ensures
            r as u32 == self.ncs() + 1,
            1 <= r <= 32,
    {
        self.get_ncs() + 1
    }

    /// Command completion coalescing supported.
    pub fn get_cccs(self) -> (r: bool)
        ensures
            r == self.cccs(),
    {
        self.0 & (1u32 << 7) != 0
    }

    /// Enclosure management supported.
    pub fn get_ems(self) -> (r: bool)
        ensures
            r == self.ems(),
    {
        self.0 & (1u32 << 6) != 0
    }

    /// Supports external SATA.
    pub fn get_sxs(self) -> (r: bool)
        ensures
            r == self.sxs(),
    {
        self.0 & (1u32 << 5) != 0
    }

    /// Number of ports, as provided by the hardware: 0 means 1 port, 31
    /// means 32 ports.  The number of ports actually implemented may be
    /// smaller; this is the theoretical count supported by the HBA.
    pub fn get_np(self) -> (r: u8)
        ensures
            r as u32 == self.np(),
            r < 32,
    {
        proof {
            lemma_field_extract(self.0);
        }
        (self.0 & 0x0000_001f) as u8
    }

    /// Number of ports, adjusted so 1 means 1 port and 32 means 32
    /// ports.
    pub fn get_np_adjusted(self) -> (r: u8)
        ensures
            r as u32 == self.np() + 1,
            1 <= r <= 32,
    {
        self.get_np() + 1
    }
}

/// Decoding is lossless: rebuilding the register from the decoded
/// fields reproduces every defined bit of the raw value exactly.  The
/// accessors are pure masks, with no hidden normalization.
pub proof fn lemma_capabilities_roundtrip(v: u32)
    ensures
        Capabilities(v).reencode() == v & Capabilities::relevant_mask(),
{
    assert(Capabilities(v).reencode() == v & 0xfff7_ffffu32) by (bit_vector);
}

/// Both adjusted counts exceed their raw 5-bit fields by exactly one
/// and lie in `1 ..= 32`, for every raw register value.
pub proof fn lemma_adjusted_counts(v: u32)
    ensures
        1 <= Capabilities(v).ncs() + 1 <= 32,
        1 <= Capabilities(v).np() + 1 <= 32,
{
    lemma_field_extract(v);
}

} // verus!
