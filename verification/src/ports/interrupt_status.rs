//! The per-port interrupt status register (PxIS).  Most flags are
//! write-1-to-clear: a clear operation produces the single-bit mask to
//! be written, never a read-modify-written value, so that acknowledging
//! one cause cannot acknowledge a sibling cause by accident.

use vstd::prelude::*;

use crate::bit;

verus! {

/// The PxIS register.  A clear method yields the value to write back;
/// the write-1-to-clear hardware then clears exactly the bits that were
/// written as 1.
#[derive(Debug, Clone, Copy, PartialEq, Eq, Structural)]
pub struct InterruptStatus(pub u32);

/// The write-back value that acknowledges every write-1-to-clear flag
/// of PxIS at once.  Read-only and reserved bits stay 0.
pub const INTERRUPT_STATUS_ALL_CLEARABLE: u32 = 0xfd80_00af;

impl InterruptStatus {
    /// Cold port detect status.
    pub open spec fn cpds(self) -> bool {
        bit(self.0, 31)
    }

    /// Task file error status.
    pub open spec fn tfes(self) -> bool {
        bit(self.0, 30)
    }

    /// Host bus fatal error status.
    pub open spec fn hbfs(self) -> bool {
        bit(self.0, 29)
    }

    /// Host bus data error status.
    pub open spec fn hbds(self) -> bool {
        bit(self.0, 28)
    }

    /// Interface fatal error status.
    pub open spec fn ifs(self) -> bool {
        bit(self.0, 27)
    }

    /// Interface non-fatal error status.
    pub open spec fn infs(self) -> bool {
        bit(self.0, 26)
    }

    /// Overflow status.
    pub open spec fn ofs(self) -> bool {
        bit(self.0, 24)
    }

    /// Incorrect port multiplier status.
    pub open spec fn ipms(self) -> bool {
        bit(self.0, 23)
    }

    /// PhyRdy change status, read-only; cleared through the SATA error register.
    pub open spec fn prcs(self) -> bool {
        bit(self.0, 22)
    }

    /// Device mechanical presence status.
    pub open spec fn dmps(self) -> bool {
        bit(self.0, 7)
    }

    /// Port connect change status, read-only.
    pub open spec fn pcs(self) -> bool {
        bit(self.0, 6)
    }

    /// Descriptor processed.
    pub open spec fn dps(self) -> bool {
        bit(self.0, 5)
    }

    /// Unknown FIS interrupt, read-only.
    pub open spec fn ufs(self) -> bool {
        bit(self.0, 4)
    }

    /// Set device bits interrupt.
    pub open spec fn sdbs(self) -> bool {
        bit(self.0, 3)
    }

    /// DMA setup FIS interrupt.
    pub open spec fn dss(self) -> bool {
        bit(self.0, 2)
    }

    /// PIO setup FIS interrupt.
    pub open spec fn pss(self) -> bool {
        bit(self.0, 1)
    }

    /// Device to host register FIS interrupt.
    pub open spec fn dhrs(self) -> bool {
        bit(self.0, 0)
    }

    pub fn from_raw(value: u32) -> (r: Self)
        ensures
            r.0 == value,
    {
        Self(value)
    }

    pub fn get_raw(self) -> (r: u32)
        ensures
            r == self.0,
    {
        self.0
    }

    /// The value that acknowledges every clearable flag at once.  The
    /// flags that are not write-1-to-clear are left alone; notably
    /// PhyRdy change status is cleared through the SATA error register
    /// instead.
    pub fn clear_all(&mut self)
        ensures
            final(self).0 == INTERRUPT_STATUS_ALL_CLEARABLE,
    {
        self.0 = INTERRUPT_STATUS_ALL_CLEARABLE;
    }

    /// Cold port detect status.
    pub fn get_cpds(self) -> (r: bool)
        ensures
            r == self.cpds(),
    {
        self.0 & (1u32 << 31) != 0
    }

    /// Cold port detect status: the value to write in order to acknowledge this flag
    /// alone.
    pub fn clear_cpds(&mut self)
        ensures
            final(self).0 == 1u32 << 31,
    {
        self.0 = 1u32 << 31;
    }

    /// Task file error status.
    pub fn get_tfes(self) -> (r: bool)
        ensures
            r == self.tfes(),
    {
        self.0 & (1u32 << 30) != 0
    }

    /// Task file error status: the value to write in order to acknowledge this flag
    /// alone.
    pub fn clear_tfes(&mut self)
        ensures
            final(self).0 == 1u32 << 30,
    {
        self.0 = 1u32 << 30;
    }

    /// Host bus fatal error status.
    pub fn get_hbfs(self) -> (r: bool)
        ensures
            r == self.hbfs(),
    {
        self.0 & (1u32 << 29) != 0
    }

    /// Host bus fatal error status: the value to write in order to acknowledge this flag
    /// alone.
    pub fn clear_hbfs(&mut self)
        ensures
            final(self).0 == 1u32 << 29,
    {
        self.0 = 1u32 << 29;
    }

    /// Host bus data error status.
    pub fn get_hbds(self) -> (r: bool)
        ensures
            r == self.hbds(),
    {
        self.0 & (1u32 << 28) != 0
    }

    /// Host bus data error status: the value to write in order to acknowledge this flag
    /// alone.
    pub fn clear_hdbs(&mut self)
        ensures
            final(self).0 == 1u32 << 28,
    {
        self.0 = 1u32 << 28;
    }

    /// Interface fatal error status.
    pub fn get_ifs(self) -> (r: bool)
        ensures
            r == self.ifs(),
    {
        self.0 & (1u32 << 27) != 0
    }

    /// Interface fatal error status: the value to write in order to acknowledge this flag
    /// alone.
    pub fn clear_ifs(&mut self)
        ensures
            final(self).0 == 1u32 << 27,
    {
        self.0 = 1u32 << 27;
    }

    /// Interface non-fatal error status.
    pub fn get_infs(self) -> (r: bool)
        ensures
            r == self.infs(),
    {
        self.0 & (1u32 << 26) != 0
    }

    /// Interface non-fatal error status: the value to write in order to acknowledge this flag
    /// alone.
    pub fn clear_infs(&mut self)
        ensures
            final(self).0 == 1u32 << 26,
    {
        self.0 = 1u32 << 26;
    }

    /// Overflow status.
    pub fn get_ofs(self) -> (r: bool)
        ensures
            r == self.ofs(),
    {
        self.0 & (1u32 << 24) != 0
    }

    /// Overflow status: the value to write in order to acknowledge this flag
    /// alone.
    pub fn clear_ofs(&mut self)
        ensures
            final(self).0 == 1u32 << 24,
    {
        self.0 = 1u32 << 24;
    }

    /// Incorrect port multiplier status.
    pub fn get_ipms(self) -> (r: bool)
        ensures
            r == self.ipms(),
    {
        self.0 & (1u32 << 23) != 0
    }

    /// Incorrect port multiplier status: the value to write in order to acknowledge this flag
    /// alone.
    pub fn clear_imps(&mut self)
        ensures
            final(self).0 == 1u32 << 23,
    {
        self.0 = 1u32 << 23;
    }

    /// PhyRdy change status, read-only; cleared through the SATA error register.
    pub fn get_prcs(self) -> (r: bool)
        ensures
            r == self.prcs(),
    {
        self.0 & (1u32 << 22) != 0
    }

    /// Device mechanical presence status.
    pub fn get_dmps(self) -> (r: bool)
        ensures
            r == self.dmps(),
    {
        self.0 & (1u32 << 7) != 0
    }

    /// Device mechanical presence status: the value to write in order to acknowledge this flag
    /// alone.
    pub fn clear_dmps(&mut self)
        ensures
            final(self).0 == 1u32 << 7,
    {
        self.0 = 1u32 << 7;
    }

    /// Port connect change status, read-only.
    pub fn get_pcs(self) -> (r: bool)
        ensures
            r == self.pcs(),
    {
        self.0 & (1u32 << 6) != 0
    }

    /// Descriptor processed.
    pub fn get_dps(self) -> (r: bool)
        ensures
            r == self.dps(),
    {
        self.0 & (1u32 << 5) != 0
    }

    /// Descriptor processed: the value to write in order to acknowledge this flag
    /// alone.
    pub fn clear_dps(&mut self)
        ensures
            final(self).0 == 1u32 << 5,
    {
        self.0 = 1u32 << 5;
    }

    /// Unknown FIS interrupt, read-only.
    pub fn get_ufs(self) -> (r: bool)
        ensures
            r == self.ufs(),
    {
        self.0 & (1u32 << 4) != 0
    }

    /// Set device bits interrupt.
    pub fn get_sdbs(self) -> (r: bool)
        ensures
            r == self.sdbs(),
    {
        self.0 & (1u32 << 3) != 0
    }

    /// Set device bits interrupt: the value to write in order to acknowledge this flag
    /// alone.
    pub fn clear_sdbs(&mut self)
        ensures
            final(self).0 == 1u32 << 3,
    {
        self.0 = 1u32 << 3;
    }

    /// DMA setup FIS interrupt.
    pub fn get_dss(self) -> (r: bool)
        ensures
            r == self.dss(),
    {
        self.0 & (1u32 << 2) != 0
    }

    /// DMA setup FIS interrupt: the value to write in order to acknowledge this flag
    /// alone.
    pub fn clear_dss(&mut self)
        ensures
            final(self).0 == 1u32 << 2,
    {
        self.0 = 1u32 << 2;
    }

    /// PIO setup FIS interrupt.
    pub fn get_pss(self) -> (r: bool)
        ensures
            r == self.pss(),
    {
        self.0 & (1u32 << 1) != 0
    }

    /// PIO setup FIS interrupt: the value to write in order to acknowledge this flag
    /// alone.
    pub fn clear_pss(&mut self)
        ensures
            final(self).0 == 1u32 << 1,
    {
        self.0 = 1u32 << 1;
    }

    /// Device to host register FIS interrupt.
    pub fn get_dhrs(self) -> (r: bool)
        ensures
            r == self.dhrs(),
    {
        self.0 & (1u32 << 0) != 0
    }

    /// Device to host register FIS interrupt: the value to write in order to acknowledge this flag
    /// alone.
    pub fn clear_dhrs(&mut self)
        ensures
            final(self).0 == 1u32 << 0,
    {
        self.0 = 1u32 << 0;
    }

}

/// Write-1-to-clear isolation: each clear operation writes only the
/// acknowledged flag's own single-bit mask, so the register state the
/// hardware computes from that write clears exactly the acknowledged
/// flag and leaves the raw value of every other flag bit unchanged.
pub proof fn lemma_w1c_isolation(status: InterruptStatus, written_bit: u32, other_bit: u32)
    requires
        written_bit < 32,
        other_bit < 32,
        other_bit != written_bit,
    ensures
        !crate::bit(crate::w1c_apply(status.0, 1u32 << written_bit), written_bit),
        crate::bit(crate::w1c_apply(status.0, 1u32 << written_bit), other_bit) == crate::bit(
            status.0,
            other_bit,
        ),
{
    crate::lemma_w1c_single_bit(status.0, written_bit, other_bit);
}

} // verus!
