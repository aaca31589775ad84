//! The per-port interrupt enable register (PxIE): one read/write
//! enable bit for each interrupt cause of PxIS.

use vstd::prelude::*;

use crate::bit;
use crate::with_bit;

verus! {

/// The PxIE register.
#[derive(Debug, Clone, Copy, PartialEq, Eq, Structural)]
pub struct InterruptEnable(pub u32);

impl InterruptEnable {
    /// Cold port detect status.
    pub open spec fn cpds(self) -> bool {
        bit(self.0, 31)
    }

    /// Task file error status.
    pub open spec fn tfes(self) -> bool {
        bit(self.0, 30)
    }

    /// Host bus fatal error status.
    pub open spec fn hbfs(self) -> bool {
        bit(self.0, 29)
    }

    /// Host bus data error status.
    pub open spec fn hbds(self) -> bool {
        bit(self.0, 28)
    }

    /// Interface fatal error status.
    pub open spec fn ifs(self) -> bool {
        bit(self.0, 27)
    }

    /// Interface non-fatal error status.
    pub open spec fn infs(self) -> bool {
        bit(self.0, 26)
    }

    /// Overflow status.
    pub open spec fn ofs(self) -> bool {
        bit(self.0, 24)
    }

    /// Incorrect port multiplier status.
    pub open spec fn ipms(self) -> bool {
        bit(self.0, 23)
    }

    /// PhyRdy change status.
    pub open spec fn prcs(self) -> bool {
        bit(self.0, 22)
    }

    /// Device mechanical presence status.
    pub open spec fn dmps(self) -> bool {
        bit(self.0, 7)
    }

    /// Port change status.
    pub open spec fn pce(self) -> bool {
        bit(self.0, 6)
    }

    /// Descriptor processed.
    pub open spec fn dps(self) -> bool {
        bit(self.0, 5)
    }

    /// Unknown FIS.
    pub open spec fn ufe(self) -> bool {
        bit(self.0, 4)
    }

    /// Set device bits interrupt.
    pub open spec fn sdbs(self) -> bool {
        bit(self.0, 3)
    }

    /// DMA setup FIS interrupt.
    pub open spec fn dss(self) -> bool {
        bit(self.0, 2)
    }

    /// PIO setup FIS interrupt.
    pub open spec fn pss(self) -> bool {
        bit(self.0, 1)
    }

    /// Device to host register FIS interrupt.
    pub open spec fn dhrs(self) -> bool {
        bit(self.0, 0)
    }

    pub fn from_raw(value: u32) -> (r: Self)
        ensures
            r.0 == value,
    {
        Self(value)
    }

    pub fn get_raw(self) -> (r: u32)
        ensures
            r == self.0,
    {
        self.0
    }

    /// Cold port detect status.
    pub fn get_cpds(self) -> (r: bool)
        ensures
            r == self.cpds(),
    {
        self.0 & (1u32 << 31) != 0
    }

    /// Cold port detect status.
    ///
    /// If cold presence detection is not supported this bit is read-only; the caller checks PxCMD.CPD first.
    pub fn set_cpds(&mut self, value: bool)
        ensures
            final(self).0 == with_bit(old(self).0, 31, value),
    {
        if value {
            self.0 = self.0 | (1u32 << 31);
        } else {
            self.0 = self.0 & !(1u32 << 31);
        }
    }

    /// Task file error status.
    pub fn get_tfes(self) -> (r: bool)
        ensures
            r == self.tfes(),
    {
        self.0 & (1u32 << 30) != 0
    }

    /// Task file error status.
    pub fn set_tfes(&mut self, value: bool)
        ensures
            final(self).0 == with_bit(old(self).0, 30, value),
    {
        if value {
            self.0 = self.0 | (1u32 << 30);
        } else {
            self.0 = self.0 & !(1u32 << 30);
        }
    }

    /// Host bus fatal error status.
    pub fn get_hbfs(self) -> (r: bool)
        ensures
            r == self.hbfs(),
    {
        self.0 & (1u32 << 29) != 0
    }

    /// Host bus fatal error status.
    pub fn set_hbfs(&mut self, value: bool)
        ensures
            final(self).0 == with_bit(old(self).0, 29, value),
    {
        if value {
            self.0 = self.0 | (1u32 << 29);
        } else {
            self.0 = self.0 & !(1u32 << 29);
        }
    }

    /// Host bus data error status.
    pub fn get_hbds(self) -> (r: bool)
        ensures
            r == self.hbds(),
    {
        self.0 & (1u32 << 28) != 0
    }

    /// Host bus data error status.
    pub fn set_hdbs(&mut self, value: bool)
        ensures
            final(self).0 == with_bit(old(self).0, 28, value),
    {
        if value {
            self.0 = self.0 | (1u32 << 28);
        } else {
            self.0 = self.0 & !(1u32 << 28);
        }
    }

    /// Interface fatal error status.
    pub fn get_ifs(self) -> (r: bool)
        ensures
            r == self.ifs(),
    {
        self.0 & (1u32 << 27) != 0
    }

    /// Interface fatal error status.
    pub fn set_ifs(&mut self, value: bool)
        ensures
            final(self).0 == with_bit(old(self).0, 27, value),
    {
        if value {
            self.0 = self.0 | (1u32 << 27);
        } else {
            self.0 = self.0 & !(1u32 << 27);
        }
    }

    /// Interface non-fatal error status.
    pub fn get_infs(self) -> (r: bool)
        ensures
            r == self.infs(),
    {
        self.0 & (1u32 << 26) != 0
    }

    /// Interface non-fatal error status.
    pub fn set_infs(&mut self, value: bool)
        ensures
            final(self).0 == with_bit(old(self).0, 26, value),
    {
        if value {
            self.0 = self.0 | (1u32 << 26);
        } else {
            self.0 = self.0 & !(1u32 << 26);
        }
    }

    /// Overflow status.
    pub fn get_ofs(self) -> (r: bool)
        ensures
            r == self.ofs(),
    {
        self.0 & (1u32 << 24) != 0
    }

    /// Overflow status.
    pub fn set_ofs(&mut self, value: bool)
        ensures
            final(self).0 == with_bit(old(self).0, 24, value),
    {
        if value {
            self.0 = self.0 | (1u32 << 24);
        } else {
            self.0 = self.0 & !(1u32 << 24);
        }
    }

    /// Incorrect port multiplier status.
    pub fn get_ipms(self) -> (r: bool)
        ensures
            r == self.ipms(),
    {
        self.0 & (1u32 << 23) != 0
    }

    /// Incorrect port multiplier status.
    pub fn set_imps(&mut self, value: bool)
        ensures
            final(self).0 == with_bit(old(self).0, 23, value),
    {
        if value {
            self.0 = self.0 | (1u32 << 23);
        } else {
            self.0 = self.0 & !(1u32 << 23);
        }
    }

    /// PhyRdy change status.
    pub fn get_prcs(self) -> (r: bool)
        ensures
            r == self.prcs(),
    {
        self.0 & (1u32 << 22) != 0
    }

    /// PhyRdy change status.
    pub fn set_prce(&mut self, value: bool)
        ensures
            final(self).0 == with_bit(old(self).0, 22, value),
    {
        if value {
            self.0 = self.0 | (1u32 << 22);
        } else {
            self.0 = self.0 & !(1u32 << 22);
        }
    }

    /// Device mechanical presence status.
    pub fn get_dmps(self) -> (r: bool)
        ensures
            r == self.dmps(),
    {
        self.0 & (1u32 << 7) != 0
    }

    /// Device mechanical presence status.
    ///
    /// If a mechanical presence switch is not attached this bit is read-only; the caller checks PxCMD.MPSP first.
    pub fn set_dmps(&mut self, value: bool)
        ensures
            final(self).0 == with_bit(old(self).0, 7, value),
    {
        if value {
            self.0 = self.0 | (1u32 << 7);
        } else {
            self.0 = self.0 & !(1u32 << 7);
        }
    }

    /// Port change status.
    pub fn get_pce(self) -> (r: bool)
        ensures
            r == self.pce(),
    {
        self.0 & (1u32 << 6) != 0
    }

    /// Port change status.
    pub fn set_pce(&mut self, value: bool)
        ensures
            final(self).0 == with_bit(old(self).0, 6, value),
    {
        if value {
            self.0 = self.0 | (1u32 << 6);
        } else {
            self.0 = self.0 & !(1u32 << 6);
        }
    }

    /// Descriptor processed.
    pub fn get_dps(self) -> (r: bool)
        ensures
            r == self.dps(),
    {
        self.0 & (1u32 << 5) != 0
    }

    /// Descriptor processed.
    pub fn set_dps(&mut self, value: bool)
        ensures
            final(self).0 == with_bit(old(self).0, 5, value),
    {
        if value {
            self.0 = self.0 | (1u32 << 5);
        } else {
            self.0 = self.0 & !(1u32 << 5);
        }
    }

    /// Unknown FIS.
    pub fn get_ufe(self) -> (r: bool)
        ensures
            r == self.ufe(),
    {
        self.0 & (1u32 << 4) != 0
    }

    /// Unknown FIS.
    pub fn set_ufe(&mut self, value: bool)
        ensures
            final(self).0 == with_bit(old(self).0, 4, value),
    {
        if value {
            self.0 = self.0 | (1u32 << 4);
        } else {
            self.0 = self.0 & !(1u32 << 4);
        }
    }

    /// Set device bits interrupt.
    pub fn get_sdbs(self) -> (r: bool)
        ensures
            r == self.sdbs(),
    {
        self.0 & (1u32 << 3) != 0
    }

    /// Set device bits interrupt.
    pub fn set_sdbs(&mut self, value: bool)
        ensures
            final(self).0 == with_bit(old(self).0, 3, value),
    {
        if value {
            self.0 = self.0 | (1u32 << 3);
        } else {
            self.0 = self.0 & !(1u32 << 3);
        }
    }

    /// DMA setup FIS interrupt.
    pub fn get_dss(self) -> (r: bool)
        ensures
            r == self.dss(),
    {
        self.0 & (1u32 << 2) != 0
    }

    /// DMA setup FIS interrupt.
    pub fn set_dss(&mut self, value: bool)
        ensures
            final(self).0 == with_bit(old(self).0, 2, value),
    {
        if value {
            self.0 = self.0 | (1u32 << 2);
        } else {
            self.0 = self.0 & !(1u32 << 2);
        }
    }

    /// PIO setup FIS interrupt.
    pub fn get_pss(self) -> (r: bool)
        ensures
            r == self.pss(),
    {
        self.0 & (1u32 << 1) != 0
    }

    /// PIO setup FIS interrupt.
    pub fn set_pss(&mut self, value: bool)
        ensures
            final(self).0 == with_bit(old(self).0, 1, value),
    {
        if value {
            self.0 = self.0 | (1u32 << 1);
        } else {
            self.0 = self.0 & !(1u32 << 1);
        }
    }

    /// Device to host register FIS interrupt.
    pub fn get_dhrs(self) -> (r: bool)
        ensures
            r == self.dhrs(),
    {
        self.0 & (1u32 << 0) != 0
    }

    /// Device to host register FIS interrupt.
    pub fn set_dhrs(&mut self, value: bool)
        ensures
            final(self).0 == with_bit(old(self).0, 0, value),
    {
        if value {
            self.0 = self.0 | (1u32 << 0);
        } else {
            self.0 = self.0 & !(1u32 << 0);
        }
    }

}

} // verus!
