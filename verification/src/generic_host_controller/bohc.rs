//! The BIOS/OS handoff control and status register (BOHC).

use vstd::prelude::*;

use crate::bit;
use crate::with_bit;

verus! {

/// The BOHC register, which carries the semaphores of the handshake
/// that transfers controller ownership from firmware to the OS.  It is
/// only meaningful while the extended capabilities report handoff
/// support.
#[derive(Debug, Clone, Copy, PartialEq, Eq, Structural)]
pub struct BiosOsHandoffControl(pub u32);

impl BiosOsHandoffControl {
    /// BIOS busy.
    pub open spec fn bb(self) -> bool {
        bit(self.0, 4)
    }

    /// OS ownership change.
    pub open spec fn ooc(self) -> bool {
        bit(self.0, 3)
    }

    /// SMI on OS ownership change enable.
    pub open spec fn sooe(self) -> bool {
        bit(self.0, 2)
    }

    /// OS owned semaphore.
    pub open spec fn oos(self) -> bool {
        bit(self.0, 1)
    }

    /// BIOS owned semaphore.
    pub open spec fn bos(self) -> bool {
        bit(self.0, 0)
    }

    pub fn from_raw(value: u32) -> (r: Self)
        ensures
            r.0 == value,
    {
        Self(value)
    }

    pub fn get_raw(self) -> (r: u32)
        ensures
            r == self.0,
    {
        self.0
    }

    /// BIOS busy.
    pub fn get_bb(self) -> (r: bool)
        ensures
            r == self.bb(),
    {
        self.0 & (1u32 << 4) != 0
    }

    /// BIOS busy.
    pub fn set_bb(&mut self, value: bool)
        ensures
            final(self).0 == with_bit(old(self).0, 4, value),
            final(self).bb() == value,
            final(self).oos() == old(self).oos(),
            final(self).bos() == old(self).bos(),
    {
        proof {
            crate::lemma_with_bit_effect(self.0, 4, value);
        }
        if value {
            self.0 = self.0 | (1u32 << 4);
        } else {
            self.0 = self.0 & !(1u32 << 4);
        }
    }

    /// BIOS busy, builder form.
    pub fn with_bb(self, value: bool) -> (r: Self)
        ensures
            r.0 == with_bit(self.0, 4, value),
    {
        let mut it = self;
        it.set_bb(value);
        it
    }

    /// OS ownership change.
    pub fn get_ooc(self) -> (r: bool)
        ensures
            r == self.ooc(),
    {
        self.0 & (1u32 << 3) != 0
    }

    /// SMI on OS ownership change enable.
    pub fn get_sooe(self) -> (r: bool)
        ensures
            r == self.sooe(),
    {
        self.0 & (1u32 << 2) != 0
    }

    /// SMI on OS ownership change enable.
    pub fn set_sooe(&mut self, value: bool)
        ensures
            final(self).0 == with_bit(old(self).0, 2, value),
    {
        if value {
            self.0 = self.0 | (1u32 << 2);
        } else {
            self.0 = self.0 & !(1u32 << 2);
        }
    }

    /// SMI on OS ownership change enable, builder form.
    pub fn with_sooe(self, value: bool) -> (r: Self)
        ensures
            r.0 == with_bit(self.0, 2, value),
    {
        let mut it = self;
        it.set_sooe(value);
        it
    }

    /// OS owned semaphore.
    pub fn get_oos(self) -> (r: bool)
        ensures
            r == self.oos(),
    {
        self.0 & (1u32 << 1) != 0
    }

    /// OS owned semaphore.  Claiming it touches no other semaphore: in
    /// particular the firmware's own flags are read back as they were.
    pub fn set_oos(&mut self, value: bool)
        ensures
            final(self).0 == with_bit(old(self).0, 1, value),
            final(self).oos() == value,
            final(self).bb() == old(self).bb(),
            final(self).bos() == old(self).bos(),
    {
        proof {
            crate::lemma_with_bit_effect(self.0, 1, value);
        }
        if value {
            self.0 = self.0 | (1u32 << 1);
        } else {
            self.0 = self.0 & !(1u32 << 1);
        }
    }

    /// OS owned semaphore, builder form.
    pub fn with_oos(self, value: bool) -> (r: Self)
        ensures
            r.0 == with_bit(self.0, 1, value),
    {
        let mut it = self;
        it.set_oos(value);
        it
    }

    /// BIOS owned semaphore.
    pub fn get_bos(self) -> (r: bool)
        ensures
            r == self.bos(),
    {
        self.0 & (1u32 << 0) != 0
    }

    /// BIOS owned semaphore.
    pub fn set_bos(&mut self, value: bool)
        ensures
            final(self).0 == with_bit(old(self).0, 0, value),
            final(self).bos() == value,
            final(self).bb() == old(self).bb(),
            final(self).oos() == old(self).oos(),
    {
        proof {
            crate::lemma_with_bit_effect(self.0, 0, value);
        }
        if value {
            self.0 = self.0 | (1u32 << 0);
        } else {
            self.0 = self.0 & !(1u32 << 0);
        }
    }

    /// BIOS owned semaphore, builder form.
    pub fn with_bos(self, value: bool) -> (r: Self)
        ensures
            r.0 == with_bit(self.0, 0, value),
    {
        let mut it = self;
        it.set_bos(value);
        it
    }
}

} // verus!
