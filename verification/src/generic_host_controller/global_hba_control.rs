//! The global HBA control register (GHC).

use vstd::prelude::*;

use crate::bit;

verus! {

/// The GHC register.  A mutation produces the value to be written back
/// to the register, encoding the write semantics each field demands:
/// AHCI Enable may only be cleared by writing the whole register as
/// zero, HBA Reset is a write-1 strobe that the hardware clears itself.
#[derive(Debug, Clone, Copy, PartialEq, Eq, Structural)]
pub struct GlobalHbaControl(pub u32);

impl GlobalHbaControl {
    /// AHCI enable.
    pub open spec fn ae(self) -> bool {
        bit(self.0, 31)
    }

    /// MSI revert to single message.
    pub open spec fn mrsm(self) -> bool {
        bit(self.0, 2)
    }

    /// Interrupt enable.
    pub open spec fn ie(self) -> bool {
        bit(self.0, 1)
    }

    /// HBA reset.
    pub open spec fn hr(self) -> bool {
        bit(self.0, 0)
    }

    pub fn from_raw(value: u32) -> (r: Self)
        ensures
            r.0 == value,
    {
        Self(value)
    }

    pub fn get_raw(self) -> (r: u32)
        ensures
            r == self.0,
    {
        self.0
    }

    /// AHCI enable.
    ///
    /// When CAP.SAM is set this field is read-only and always 1; when
    /// CAP.SAM is clear it is read-write and resets to 0.
    pub fn get_ae(self) -> (r: bool)
        ensures
            r == self.ae(),
    {
        self.0 & (1u32 << 31) != 0
    }

    /// AHCI enable.  Writing this field is only legal while CAP.SAM is
    /// clear; the caller establishes that from the capabilities
    /// register.
    ///
    /// Clearing AE must write the entire register as zero in the same
    /// operation (AHCI specification, section 3.1.2): no other bit may
    /// be set in that write.
    pub fn set_ae(&mut self, value: bool)
        ensures
            value ==> final(self).0 == old(self).0 | 0x8000_0000u32,
            !value ==> final(self).0 == 0,
    {
        if value {
            self.0 = self.0 | 0x8000_0000u32;
        } else {
            self.0 = 0;
        }
    }

    /// AHCI enable, builder form; the same write rules as `set_ae`.
    pub fn with_ae(self, value: bool) -> (r: Self)
        ensures
            value ==> r.0 == self.0 | 0x8000_0000u32,
            !value ==> r.0 == 0,
    {
        let mut it = self;
        it.set_ae(value);
        it
    }

    /// MSI revert to single message.
    pub fn get_mrsm(self) -> (r: bool)
        ensures
            r == self.mrsm(),
    {
        self.0 & (1u32 << 2) != 0
    }

    /// Interrupt enable.
    pub fn get_ie(self) -> (r: bool)
        ensures
            r == self.ie(),
    {
        self.0 & (1u32 << 1) != 0
    }

    /// Interrupt enable.  The produced value keeps every read/write bit,
    /// writes 0 to the HBA-reset strobe so no reset is requested, and
    /// sets the interrupt-enable bit to `value`.
    pub fn set_ie(&mut self, value: bool)
        ensures
            final(self).0 == (old(self).0 & 0xffff_fffcu32) | (if value {
                2u32
            } else {
                0u32
            }),
    {
        self.0 = (self.0 & 0xffff_fffcu32) | (if value {
            2u32
        } else {
            0u32
        });
    }

    /// Interrupt enable, builder form.
    pub fn with_ie(self, value: bool) -> (r: Self)
        ensures
            r.0 == (self.0 & 0xffff_fffcu32) | (if value {
                2u32
            } else {
                0u32
            }),
    {
        let mut it = self;
        it.set_ie(value);
        it
    }

    /// HBA reset, a write-1 strobe.
    pub fn get_hr(self) -> (r: bool)
        ensures
            r == self.hr(),
    {
        self.0 & (1u32 << 0) != 0
    }

    /// HBA reset.  Always writes a 1: writing 0 has no effect, and the
    /// hardware clears the bit itself once the reset completes.
    pub fn set_hr(&mut self)
        ensures
            final(self).0 == old(self).0 | 1u32,
    {
        self.0 = self.0 | 1u32;
    }

    /// HBA reset, builder form.
    pub fn with_hr(self) -> (r: Self)
        ensures
            r.0 == self.0 | 1u32,
    {
        let mut it = self;
        it.set_hr();
        it
    }
}

} // verus!
