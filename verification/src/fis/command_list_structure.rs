//! A command header: one of the 32 slots of a port's command list
//! (AHCI specification, section 4.2.2).

use vstd::prelude::*;

use crate::bit;

verus! {

/// One command header.  The wire form is eight dwords; dwords 4
/// through 7 are reserved-zero, so the model carries the three that
/// hold data together with the descriptor dword.
#[derive(Debug, Clone, Copy, PartialEq, Eq, Structural)]
pub struct CommandListStructure {
    /// Descriptor dword: PRDT length in bits 31:16, port multiplier
    /// port in 15:12, flags in 10:5 and command FIS length in 4:0.
    pub dw0: u32,
    /// Physical region descriptor byte count, written back by the
    /// hardware as the command transfers data.
    pub prdbc: u32,
    /// Command table base address, low 32 bits; 128-byte aligned.
    pub ctba: u32,
    /// Command table base address, high 32 bits; meaningful only on an
    /// HBA that supports 64-bit addressing.
    pub ctbau: u32,
}

impl CommandListStructure {
    /// Physical region descriptor table length: how many PRDT entries
    /// the command table holds.
    pub open spec fn prdtl(self) -> u32 {
        (self.dw0 >> 16) & 0xffff
    }

    /// Port multiplier port.
    pub open spec fn pmp(self) -> u32 {
        (self.dw0 >> 12) & 0xf
    }

    /// Clear busy upon R_OK.
    pub open spec fn clear_busy(self) -> bool {
        bit(self.dw0, 10)
    }

    /// Built-in self test.
    pub open spec fn bist(self) -> bool {
        bit(self.dw0, 9)
    }

    /// Reset.
    pub open spec fn reset_flag(self) -> bool {
        bit(self.dw0, 8)
    }

    /// Prefetchable.
    pub open spec fn prefetchable(self) -> bool {
        bit(self.dw0, 7)
    }

    /// Write direction: set when the command writes to the device.
    pub open spec fn write(self) -> bool {
        bit(self.dw0, 6)
    }

    /// ATAPI.
    pub open spec fn atapi(self) -> bool {
        bit(self.dw0, 5)
    }

    /// Command FIS length, in dwords.
    pub open spec fn cfl(self) -> u32 {
        self.dw0 & 0x1f
    }

    /// A fresh header: every dword zero.
    pub fn new() -> (r: Self)
        ensures
            r.dw0 == 0 && r.prdbc == 0 && r.ctba == 0 && r.ctbau == 0,
    {
        Self { dw0: 0, prdbc: 0, ctba: 0, ctbau: 0 }
    }

    /// Returns the header to the all-zero state, as the submission
    /// protocol demands before a slot is reused.
    pub fn reset(&mut self)
        ensures
            final(self).dw0 == 0 && final(self).prdbc == 0 && final(self).ctba == 0 && final(self).ctbau == 0,
    {
        self.dw0 = 0;
        self.prdbc = 0;
        self.ctba = 0;
        self.ctbau = 0;
    }

    /// Physical region descriptor table length.
    pub fn get_prdtl(&self) -> (r: u16)
        ensures
            r as u32 == self.prdtl(),
    {
        proof {
            crate::lemma_field_extract(self.dw0);
        }
        ((self.dw0 & 0xffff_0000) >> 16) as u16
    }

    /// Physical region descriptor table length.
    pub fn set_prdtl(&mut self, value: u16)
        ensures
            *final(self) == (CommandListStructure {
                dw0: (old(self).dw0 & 0x0000_ffff) | ((value as u32) << 16),
                ..*old(self)
            }),
    {
        self.dw0 = (self.dw0 & 0x0000_ffff) | ((value as u32) << 16);
    }

    /// Port multiplier port.
    pub fn get_pmp(&self) -> (r: u8)
        ensures
            r as u32 == self.pmp(),
            r < 16,
    {
        proof {
            crate::lemma_field_extract(self.dw0);
        }
        ((self.dw0 & 0x0000_f000) >> 12) as u8
    }

    /// Port multiplier port; the field is 4 bits wide.
    pub fn set_pmp(&mut self, value: u8)
        requires
            value < 16,
        ensures
            *final(self) == (CommandListStructure {
                dw0: (old(self).dw0 & 0xffff_0fff) | ((value as u32) << 12),
                ..*old(self)
            }),
    {
        self.dw0 = (self.dw0 & 0xffff_0fff) | ((value as u32) << 12);
    }

    /// Clear busy upon R_OK.
    pub fn get_clear_busy(&self) -> (r: bool)
        ensures
            r == self.clear_busy(),
    {
        self.dw0 & (1u32 << 10) != 0
    }

    /// Clear busy upon R_OK.
    pub fn set_clear_busy(&mut self, value: bool)
        ensures
            *final(self) == (CommandListStructure {
                dw0: crate::with_bit(old(self).dw0, 10, value),
                ..*old(self)
            }),
    {
        if value {
            self.dw0 = self.dw0 | (1u32 << 10);
        } else {
            self.dw0 = self.dw0 & !(1u32 << 10);
        }
    }

    /// Built-in self test.
    pub fn get_bist(&self) -> (r: bool)
        ensures
            r == self.bist(),
    {
        self.dw0 & (1u32 << 9) != 0
    }

    /// Built-in self test.
    pub fn set_bist(&mut self, value: bool)
        ensures
            *final(self) == (CommandListStructure {
                dw0: crate::with_bit(old(self).dw0, 9, value),
                ..*old(self)
            }),
    {
        if value {
            self.dw0 = self.dw0 | (1u32 << 9);
        } else {
            self.dw0 = self.dw0 & !(1u32 << 9);
        }
    }

    /// Reset.
    pub fn get_reset(&self) -> (r: bool)
        ensures
            r == self.reset_flag(),
    {
        self.dw0 & (1u32 << 8) != 0
    }

    /// Reset.
    pub fn set_reset(&mut self, value: bool)
        ensures
            *final(self) == (CommandListStructure {
                dw0: crate::with_bit(old(self).dw0, 8, value),
                ..*old(self)
            }),
    {
        if value {
            self.dw0 = self.dw0 | (1u32 << 8);
        } else {
            self.dw0 = self.dw0 & !(1u32 << 8);
        }
    }

    /// Prefetchable.
    pub fn get_prefetchable(&self) -> (r: bool)
        ensures
            r == self.prefetchable(),
    {
        self.dw0 & (1u32 << 7) != 0
    }

    /// Prefetchable.
    pub fn set_prefetchable(&mut self, value: bool)
        ensures
            *final(self) == (CommandListStructure {
                dw0: crate::with_bit(old(self).dw0, 7, value),
                ..*old(self)
            }),
    {
        if value {
            self.dw0 = self.dw0 | (1u32 << 7);
        } else {
            self.dw0 = self.dw0 & !(1u32 << 7);
        }
    }

    /// Write direction.
    pub fn get_write(&self) -> (r: bool)
        ensures
            r == self.write(),
    {
        self.dw0 & (1u32 << 6) != 0
    }

    /// Write direction.
    pub fn set_write(&mut self, value: bool)
        ensures
            *final(self) == (CommandListStructure {
                dw0: crate::with_bit(old(self).dw0, 6, value),
                ..*old(self)
            }),
    {
        if value {
            self.dw0 = self.dw0 | (1u32 << 6);
        } else {
            self.dw0 = self.dw0 & !(1u32 << 6);
        }
    }

    /// ATAPI.
    pub fn get_atapi(&self) -> (r: bool)
        ensures
            r == self.atapi(),
    {
        self.dw0 & (1u32 << 5) != 0
    }

    /// ATAPI.
    pub fn set_atapi(&mut self, value: bool)
        ensures
            *final(self) == (CommandListStructure {
                dw0: crate::with_bit(old(self).dw0, 5, value),
                ..*old(self)
            }),
    {
        if value {
            self.dw0 = self.dw0 | (1u32 << 5);
        } else {
            self.dw0 = self.dw0 & !(1u32 << 5);
        }
    }

    /// Command FIS length, in dwords.
    pub fn get_cfl(&self) -> (r: u8)
        ensures
            r as u32 == self.cfl(),
            r < 32,
    {
        proof {
            crate::lemma_field_extract(self.dw0);
        }
        (self.dw0 & 0x0000_001f) as u8
    }

    /// Command FIS length, in dwords; the field is 5 bits wide.
    pub fn set_cfl(&mut self, value: u8)
        requires
            value < 32,
        ensures
            *final(self) == (CommandListStructure {
                dw0: (old(self).dw0 & 0xffff_ffe0) | (value as u32),
                ..*old(self)
            }),
    {
        self.dw0 = (self.dw0 & 0xffff_ffe0) | (value as u32);
    }

    /// Physical region descriptor byte count.
    pub fn get_prdbc(&self) -> (r: u32)
        ensures
            r == self.prdbc,
    {
        self.prdbc
    }

    /// Physical region descriptor byte count.
    pub fn set_prdbc(&mut self, value: u32)
        ensures
            *final(self) == (CommandListStructure { prdbc: value, ..*old(self) }),
    {
        self.prdbc = value;
    }

    /// Command table base address, low 32 bits.
    pub fn get_ctba(&self) -> (r: u32)
        ensures
            r == self.ctba,
    {
        self.ctba
    }

    /// Command table base address, low 32 bits; the table must sit on a
    /// 128-byte cache-line boundary.
    pub fn set_ctba(&mut self, value: u32)
        requires
            value % 0x80 == 0,
        ensures
            *final(self) == (CommandListStructure { ctba: value, ..*old(self) }),
    {
        self.ctba = value;
    }

    /// Command table base address, high 32 bits.  Meaningful only on an
    /// HBA with 64-bit addressing support.
    pub fn get_ctbau(&self) -> (r: u32)
        ensures
            r == self.ctbau,
    {
        self.ctbau
    }

    /// Command table base address, high 32 bits.  Only programmed on an
    /// HBA with 64-bit addressing support; the caller checks CAP.S64A
    /// first.
    pub fn set_ctbau(&mut self, value: u32)
        ensures
            *final(self) == (CommandListStructure { ctbau: value, ..*old(self) }),
    {
        self.ctbau = value;
    }
}

} // verus!
