//! The per-port command and status register (PxCMD).
//!
//! Bit 3, command list override, is write-1-to-set: writing 0 to it has
//! no effect and only the hardware clears it.  Every other write
//! therefore masks bit 3 out of the value it writes back, so that an
//! ordinary read-modify-write can never request an override by
//! accident.

use vstd::prelude::*;

use crate::bit;

verus! {

/// An interface communication control state, the 4-bit PxCMD.ICC
/// field.  Values other than the named ones are reserved.
#[derive(Debug, Clone, Copy, PartialEq, Eq, Structural)]
pub struct IccState(pub u8);

/// Device sleep.
pub const ICC_DEVSLEEP: u8 = 8;

/// Slumber.
pub const ICC_SLUMBER: u8 = 6;

/// Partial.
pub const ICC_PARTIAL: u8 = 2;

/// Active.
pub const ICC_ACTIVE: u8 = 1;

/// Idle, also called no-operation.
pub const ICC_IDLE: u8 = 0;

impl IccState {
    pub fn get_raw(self) -> (r: u8)
        ensures
            r == self.0,
    {
        self.0
    }

    pub fn from_raw(value: u8) -> (r: Option<Self>)
        ensures
            value < 0x10 ==> r == Some(IccState(value)),
            value >= 0x10 ==> r is None,
    {
        if value < 0x10 {
            Some(Self(value))
        } else {
            None
        }
    }
}

/// The PxCMD register.  A mutation produces the value to write back.
#[derive(Debug, Clone, Copy, PartialEq, Eq, Structural)]
pub struct Command(pub u32);

/// The value a read-modify-write of PxCMD stores for a given bit: the
/// command-list-override strobe (bit 3) is always written as 0, the
/// addressed bit is forced to `value`, and every other bit keeps its
/// observed state.
pub open spec fn guarded_write(v: u32, i: u32, value: bool) -> u32 {
    (v & (!(1u32 << i) & 0xffff_fff7u32)) | (if value {
        1u32 << i
    } else {
        0u32
    })
}

impl Command {
    /// Aggressive slumber/partial.
    pub open spec fn asp(self) -> bool {
        bit(self.0, 27)
    }

    /// Aggressive link power management enable.
    pub open spec fn alpe(self) -> bool {
        bit(self.0, 26)
    }

    /// Drive LED on ATAPI enable.
    pub open spec fn dlae(self) -> bool {
        bit(self.0, 25)
    }

    /// Device is ATAPI.
    pub open spec fn atapi(self) -> bool {
        bit(self.0, 24)
    }

    /// Automatic partial to slumber transitions enabled.
    pub open spec fn apste(self) -> bool {
        bit(self.0, 23)
    }

    /// FIS-based switching capable port.
    pub open spec fn fbscp(self) -> bool {
        bit(self.0, 22)
    }

    /// External SATA port.
    pub open spec fn esp(self) -> bool {
        bit(self.0, 21)
    }

    /// Cold presence detection.
    pub open spec fn cpd(self) -> bool {
        bit(self.0, 20)
    }

    /// Mechanical presence switch attached to port.
    pub open spec fn mpsp(self) -> bool {
        bit(self.0, 19)
    }

    /// Hot plug capable port.
    pub open spec fn hpcp(self) -> bool {
        bit(self.0, 18)
    }

    /// Port multiplier attached.
    pub open spec fn pma(self) -> bool {
        bit(self.0, 17)
    }

    /// Cold presence state.
    pub open spec fn cps(self) -> bool {
        bit(self.0, 16)
    }

    /// Command list running.
    pub open spec fn cr(self) -> bool {
        bit(self.0, 15)
    }

    /// FIS receive running.
    pub open spec fn fr(self) -> bool {
        bit(self.0, 14)
    }

    /// Mechanical presence switch state.
    pub open spec fn mpss(self) -> bool {
        bit(self.0, 13)
    }

    /// FIS receive enable.
    pub open spec fn fre(self) -> bool {
        bit(self.0, 4)
    }

    /// Power on device.
    pub open spec fn pod(self) -> bool {
        bit(self.0, 2)
    }

    /// Spin-up device.
    pub open spec fn sud(self) -> bool {
        bit(self.0, 1)
    }

    /// Start.
    pub open spec fn st(self) -> bool {
        bit(self.0, 0)
    }

    /// Interface communication control, the raw 4-bit field.
    pub open spec fn icc(self) -> u32 {
        (self.0 >> 28) & 0xf
    }

    /// Command list override.
    pub open spec fn clo(self) -> bool {
        bit(self.0, 3)
    }

    /// Current command slot.
    pub open spec fn ccs(self) -> u32 {
        (self.0 >> 8) & 0x1f
    }

    pub fn from_raw(value: u32) -> (r: Self)
        ensures
            r.0 == value,
    {
        Self(value)
    }

    pub fn get_raw(self) -> (r: u32)
        ensures
            r == self.0,
    {
        self.0
    }

    /// Interface communication control.  The field is 4 bits wide, so
    /// every value it can hold is a representable state.
    pub fn get_icc(self) -> (r: IccState)
        ensures
            r.0 as u32 == self.icc(),
    {
        proof {
            crate::lemma_field_extract(self.0);
        }
        IccState(((self.0 & 0xf000_0000u32) >> 28) as u8)
    }

    /// Interface communication control.
    pub fn set_icc(&mut self, value: IccState)
        ensures
            final(self).0 == (old(self).0 & 0x0fff_fff7u32) | ((value.0 as u32) << 28),
    {
        self.0 = (self.0 & 0x0fff_fff7u32) | ((value.0 as u32) << 28);
    }

    /// Current command slot.
    pub fn get_ccs(self) -> (r: u8)
        ensures
            r as u32 == self.ccs(),
            r < 32,
    {
        proof {
            crate::lemma_field_extract(self.0);
        }
        ((self.0 & 0x0000_1f00) >> 8) as u8
    }

    /// Command list override, the one write-1-to-set field.
    pub fn get_clo(self) -> (r: bool)
        ensures
            r == self.clo(),
    {
        self.0 & (1u32 << 3) != 0
    }

    /// Command list override.  Always writes a 1; only the hardware
    /// clears this bit, so a later request to take it back would be a
    /// defect, and no clearing form exists.
    pub fn set_clo(&mut self)
        ensures
            final(self).0 == old(self).0 | (1u32 << 3),
    {
        self.0 = self.0 | (1u32 << 3);
    }

    /// Aggressive slumber/partial.
    pub fn get_asp(self) -> (r: bool)
        ensures
            r == self.asp(),
    {
        self.0 & (1u32 << 27) != 0
    }

    /// Aggressive slumber/partial.
    ///
    /// If CAP.SALP is 0 this bit is read-only reserved; the caller checks the capabilities first.
    pub fn set_asp(&mut self, value: bool)
        ensures
            final(self).0 == guarded_write(old(self).0, 27, value),
    {
        self.0 = (self.0 & (!(1u32 << 27) & 0xffff_fff7u32)) | (if value {
            1u32 << 27
        } else {
            0u32
        });
    }

    /// Aggressive link power management enable.
    pub fn get_alpe(self) -> (r: bool)
        ensures
            r == self.alpe(),
    {
        self.0 & (1u32 << 26) != 0
    }

    /// Aggressive link power management enable.
    ///
    /// If CAP.SALP is 0 this bit is read-only reserved; the caller checks the capabilities first.
    pub fn set_alpe(&mut self, value: bool)
        ensures
            final(self).0 == guarded_write(old(self).0, 26, value),
    {
        self.0 = (self.0 & (!(1u32 << 26) & 0xffff_fff7u32)) | (if value {
            1u32 << 26
        } else {
            0u32
        });
    }

    /// Drive LED on ATAPI enable.
    pub fn get_dlae(self) -> (r: bool)
        ensures
            r == self.dlae(),
    {
        self.0 & (1u32 << 25) != 0
    }

    /// Drive LED on ATAPI enable.
    pub fn set_dlae(&mut self, value: bool)
        ensures
            final(self).0 == guarded_write(old(self).0, 25, value),
    {
        self.0 = (self.0 & (!(1u32 << 25) & 0xffff_fff7u32)) | (if value {
            1u32 << 25
        } else {
            0u32
        });
    }

    /// Device is ATAPI.
    pub fn get_atapi(self) -> (r: bool)
        ensures
            r == self.atapi(),
    {
        self.0 & (1u32 << 24) != 0
    }

    /// Device is ATAPI.
    pub fn set_atapi(&mut self, value: bool)
        ensures
            final(self).0 == guarded_write(old(self).0, 24, value),
    {
        self.0 = (self.0 & (!(1u32 << 24) & 0xffff_fff7u32)) | (if value {
            1u32 << 24
        } else {
            0u32
        });
    }

    /// Automatic partial to slumber transitions enabled.
    pub fn get_apste(self) -> (r: bool)
        ensures
            r == self.apste(),
    {
        self.0 & (1u32 << 23) != 0
    }

    /// Automatic partial to slumber transitions enabled.
    ///
    /// If CAP2.APST is 0 this bit is reserved; the caller checks the extended capabilities first.
    pub fn set_apste(&mut self, value: bool)
        ensures
            final(self).0 == guarded_write(old(self).0, 23, value),
    {
        self.0 = (self.0 & (!(1u32 << 23) & 0xffff_fff7u32)) | (if value {
            1u32 << 23
        } else {
            0u32
        });
    }

    /// FIS-based switching capable port.
    pub fn get_fbscp(self) -> (r: bool)
        ensures
            r == self.fbscp(),
    {
        self.0 & (1u32 << 22) != 0
    }

    /// External SATA port.
    pub fn get_esp(self) -> (r: bool)
        ensures
            r == self.esp(),
    {
        self.0 & (1u32 << 21) != 0
    }

    /// Cold presence detection.
    pub fn get_cpd(self) -> (r: bool)
        ensures
            r == self.cpd(),
    {
        self.0 & (1u32 << 20) != 0
    }

    /// Mechanical presence switch attached to port.
    pub fn get_mpsp(self) -> (r: bool)
        ensures
            r == self.mpsp(),
    {
        self.0 & (1u32 << 19) != 0
    }

    /// Hot plug capable port.
    pub fn get_hpcp(self) -> (r: bool)
        ensures
            r == self.hpcp(),
    {
        self.0 & (1u32 << 18) != 0
    }

    /// Port multiplier attached.
    pub fn get_pma(self) -> (r: bool)
        ensures
            r == self.pma(),
    {
        self.0 & (1u32 << 17) != 0
    }

    /// Port multiplier attached.
    ///
    /// PxCMD.ST must be 0 while this bit is being set; the caller stops the port first.
    pub fn set_pma(&mut self, value: bool)
        ensures
            final(self).0 == guarded_write(old(self).0, 17, value),
    {
        self.0 = (self.0 & (!(1u32 << 17) & 0xffff_fff7u32)) | (if value {
            1u32 << 17
        } else {
            0u32
        });
    }

    /// Cold presence state.
    pub fn get_cps(self) -> (r: bool)
        ensures
            r == self.cps(),
    {
        self.0 & (1u32 << 16) != 0
    }

    /// Command list running.
    pub fn get_cr(self) -> (r: bool)
        ensures
            r == self.cr(),
    {
        self.0 & (1u32 << 15) != 0
    }

    /// FIS receive running.
    pub fn get_fr(self) -> (r: bool)
        ensures
            r == self.fr(),
    {
        self.0 & (1u32 << 14) != 0
    }

    /// Mechanical presence switch state.
    pub fn get_mpss(self) -> (r: bool)
        ensures
            r == self.mpss(),
    {
        self.0 & (1u32 << 13) != 0
    }

    /// FIS receive enable.
    pub fn get_fre(self) -> (r: bool)
        ensures
            r == self.fre(),
    {
        self.0 & (1u32 << 4) != 0
    }

    /// FIS receive enable.
    pub fn set_fre(&mut self, value: bool)
        ensures
            final(self).0 == guarded_write(old(self).0, 4, value),
    {
        self.0 = (self.0 & (!(1u32 << 4) & 0xffff_fff7u32)) | (if value {
            1u32 << 4
        } else {
            0u32
        });
    }

    /// Power on device.
    pub fn get_pod(self) -> (r: bool)
        ensures
            r == self.pod(),
    {
        self.0 & (1u32 << 2) != 0
    }

    /// Power on device.
    ///
    /// If PxCMD.CPD is 0 this field is read-only; the caller checks cold presence detection first.
    pub fn set_pod(&mut self, value: bool)
        ensures
            final(self).0 == guarded_write(old(self).0, 2, value),
    {
        self.0 = (self.0 & (!(1u32 << 2) & 0xffff_fff7u32)) | (if value {
            1u32 << 2
        } else {
            0u32
        });
    }

    /// Spin-up device.
    pub fn get_sud(self) -> (r: bool)
        ensures
            r == self.sud(),
    {
        self.0 & (1u32 << 1) != 0
    }

    /// Spin-up device.
    ///
    /// Read-only 1 if CAP.SSS is unset; the caller checks staggered spin-up support first.
    pub fn set_sud(&mut self, value: bool)
        ensures
            final(self).0 == guarded_write(old(self).0, 1, value),
    {
        self.0 = (self.0 & (!(1u32 << 1) & 0xffff_fff7u32)) | (if value {
            1u32 << 1
        } else {
            0u32
        });
    }

    /// Start.
    pub fn get_st(self) -> (r: bool)
        ensures
            r == self.st(),
    {
        self.0 & (1u32 << 0) != 0
    }

    /// Start.
    pub fn set_st(&mut self, value: bool)
        ensures
            final(self).0 == guarded_write(old(self).0, 0, value),
    {
        self.0 = (self.0 & (!(1u32 << 0) & 0xffff_fff7u32)) | (if value {
            1u32 << 0
        } else {
            0u32
        });
    }

}

} // verus!
