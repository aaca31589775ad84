//! Value decoding for the PCI configuration space the driver touches.
//!
//! PCI enumeration and configuration-space access belong to the bus
//! collaborator; the embedding runtime reads and writes the registers.
//! What stands here is the pure interpretation of the values that the
//! AHCI bring-up depends on: the command register whose memory-space,
//! bus-master and interrupt-disable bits it programs, the status
//! register, the header type that identifies an AHCI function, and the
//! base address register that locates the HBA memory window.

use vstd::prelude::*;

verus! {

/// The PCI command register.  Some bits are read-only, so only those
/// get a setter.
#[derive(Debug, Clone, Copy, PartialEq, Eq, Structural)]
pub struct Command(pub u16);

impl Command {
    /// I/O space decode enable.
    pub open spec fn io_space(self) -> bool {
        self.0 & 0x0001 == 0x0001
    }

    /// Memory space decode enable.
    pub open spec fn memory_space(self) -> bool {
        self.0 & 0x0002 == 0x0002
    }

    /// Bus master enable.
    pub open spec fn bus_master(self) -> bool {
        self.0 & 0x0004 == 0x0004
    }

    /// Interrupt disable.
    pub open spec fn interrupt_disable(self) -> bool {
        self.0 & 0x0400 == 0x0400
    }

    pub fn from_raw(value: u16) -> (r: Self)
        ensures
            r.0 == value,
    {
        Self(value)
    }

    pub fn get_raw(self) -> (r: u16)
        ensures
            r == self.0,
    {
        self.0
    }

    /// I/O space decode enable.
    pub fn get_io_space(&self) -> (r: bool)
        ensures
            r == self.io_space(),
    {
        self.0 & 0x0001 == 0x0001
    }

    /// I/O space decode enable.
    pub fn set_io_space(&mut self, set: bool)
        ensures
            final(self).0 == (if set {
                (old(self).0 & !0x0001) | 0x0001u16
            } else {
                old(self).0 & !0x0001
            }),
    {
        let tmp = self.0 & !0x0001;
        self.0 = if set {
            tmp | 0x0001
        } else {
            tmp
        };
    }

    /// Memory space decode enable.
    pub fn get_memory_space(&self) -> (r: bool)
        ensures
            r == self.memory_space(),
    {
        self.0 & 0x0002 == 0x0002
    }

    /// Memory space decode enable.
    pub fn set_memory_space(&mut self, set: bool)
        ensures
            final(self).0 == (if set {
                (old(self).0 & !0x0002) | 0x0002u16
            } else {
                old(self).0 & !0x0002
            }),
    {
        let tmp = self.0 & !0x0002;
        self.0 = if set {
            tmp | 0x0002
        } else {
            tmp
        };
    }

    /// Bus master enable.
    pub fn get_bus_master(&self) -> (r: bool)
        ensures
            r == self.bus_master(),
    {
        self.0 & 0x0004 == 0x0004
    }

    /// Bus master enable.
    pub fn set_bus_master(&mut self, set: bool)
        ensures
            final(self).0 == (if set {
                (old(self).0 & !0x0004) | 0x0004u16
            } else {
                old(self).0 & !0x0004
            }),
    {
        let tmp = self.0 & !0x0004;
        self.0 = if set {
            tmp | 0x0004
        } else {
            tmp
        };
    }

    /// Special cycles, read-only.
    pub fn get_special_cycles(&self) -> (r: bool)
        ensures
            r == (self.0 & 0x0008 == 0x0008),
    {
        self.0 & 0x0008 == 0x0008
    }

    /// Memory write and invalidate enable, read-only.
    pub fn get_memory_write_and_invalidate_enable(&self) -> (r: bool)
        ensures
            r == (self.0 & 0x0010 == 0x0010),
    {
        self.0 & 0x0010 == 0x0010
    }

    /// VGA palette snoop, read-only.
    pub fn get_vga_palette_snoop(&self) -> (r: bool)
        ensures
            r == (self.0 & 0x0020 == 0x0020),
    {
        self.0 & 0x0020 == 0x0020
    }

    /// Parity error response.
    pub fn get_parity_error_response(&self) -> (r: bool)
        ensures
            r == (self.0 & 0x0040 == 0x0040),
    {
        self.0 & 0x0040 == 0x0040
    }

    /// Parity error response.
    pub fn set_parity_error_response(&mut self, set: bool)
        ensures
            final(self).0 == (if set {
                (old(self).0 & !0x0040) | 0x0040u16
            } else {
                old(self).0 & !0x0040
            }),
    {
        let tmp = self.0 & !0x0040;
        self.0 = if set {
            tmp | 0x0040
        } else {
            tmp
        };
    }

    /// SERR# enable.
    pub fn get_serr_enable(&self) -> (r: bool)
        ensures
            r == (self.0 & 0x0100 == 0x0100),
    {
        self.0 & 0x0100 == 0x0100
    }

    /// SERR# enable.
    pub fn set_serr_enable(&mut self, set: bool)
        ensures
            final(self).0 == (if set {
                (old(self).0 & !0x0100) | 0x0100u16
            } else {
                old(self).0 & !0x0100
            }),
    {
        let tmp = self.0 & !0x0100;
        self.0 = if set {
            tmp | 0x0100
        } else {
            tmp
        };
    }

    /// Fast back-to-back enable, read-only.
    pub fn get_fast_b2b_enable(&self) -> (r: bool)
        ensures
            r == (self.0 & 0x0200 == 0x0200),
    {
        self.0 & 0x0200 == 0x0200
    }

    /// Interrupt disable.
    pub fn get_interrupt_disable(&self) -> (r: bool)
        ensures
            r == self.interrupt_disable(),
    {
        self.0 & 0x0400 == 0x0400
    }

    /// Interrupt disable.
    pub fn set_interrupt_disable(&mut self, set: bool)
        ensures
            final(self).0 == (if set {
                (old(self).0 & !0x0400) | 0x0400u16
            } else {
                old(self).0 & !0x0400
            }),
    {
        let tmp = self.0 & !0x0400;
        self.0 = if set {
            tmp | 0x0400
        } else {
            tmp
        };
    }
}

/// The PCI status register; only read.
#[derive(Debug, Clone, Copy, PartialEq, Eq, Structural)]
pub struct Status(pub u16);

/// The configuration-space offset of the status register.
pub const STATUS_DEFAULT_OFFSET: u16 = 0x04;

impl Status {
    pub fn from_raw(value: u16) -> (r: Self)
        ensures
            r.0 == value,
    {
        Self(value)
    }

    /// Interrupt status.
    pub fn get_interrupt_status(&self) -> (r: bool)
        ensures
            r == (self.0 & 0x0008 == 0x0008),
    {
        self.0 & 0x0008 == 0x0008
    }

    /// Capabilities list present.
    pub fn get_capabilities_list(&self) -> (r: bool)
        ensures
            r == (self.0 & 0x0010 == 0x0010),
    {
        self.0 & 0x0010 == 0x0010
    }

    /// 66 MHz capable.
    pub fn get_66mhz_capable(&self) -> (r: bool)
        ensures
            r == (self.0 & 0x0020 == 0x0020),
    {
        self.0 & 0x0020 == 0x0020
    }

    /// Fast back-to-back capable.
    pub fn get_fast_b2b_capable(&self) -> (r: bool)
        ensures
            r == (self.0 & 0x0080 == 0x0080),
    {
        self.0 & 0x0080 == 0x0080
    }
}

/// The PCI header type byte.
#[derive(Debug, Clone, Copy, PartialEq, Eq, Structural)]
pub struct HeaderType(pub u8);

impl HeaderType {
    /// Whether the function is part of a multi-function device.
    pub fn is_multifunction(&self) -> (r: bool)
        ensures
            r == (self.0 & 0x80 == 0x80),
    {
        self.0 & 0x80 == 0x80
    }

    /// The layout type of the header; 0 is the general device layout.
    pub fn get_type(&self) -> (r: u8)
        ensures
            r == self.0 & 0x7f,
    {
        self.0 & 0x7f
    }
}

/// A raw base address register value, before its space is decoded.
#[derive(Debug, Clone, Copy, PartialEq, Eq, Structural)]
pub struct BarValue(pub u32);

/// A memory-space base address register value.
#[derive(Debug, Clone, Copy, PartialEq, Eq, Structural)]
pub struct MemSpaceBarValue(pub u32);

/// An I/O-space base address register value.
#[derive(Debug, Clone, Copy, PartialEq, Eq, Structural)]
pub struct IoSpaceBarValue(pub u32);

/// The addressing width a memory-space BAR reports.
#[derive(Debug, Clone, Copy, PartialEq, Eq, Structural)]
pub enum MemSpaceType {
    /// A 32-bit base address.
    Bits32,
    /// Reserved.
    Reserved,
    /// A 64-bit base address, continued in the following BAR.
    Bits64,
    /// Undefined.
    Undefined,
}

impl MemSpaceBarValue {
    /// A memory-space view of a raw BAR value; a value with bit 0 set
    /// is an I/O-space BAR and is refused.
    pub fn try_from(value: BarValue) -> (r: Option<Self>)
        ensures
            value.0 & 1 == 0 ==> r == Some(MemSpaceBarValue(value.0)),
            value.0 & 1 != 0 ==> r is None,
    {
        if value.0 & 1 != 0 {
            None
        } else {
            Some(MemSpaceBarValue(value.0))
        }
    }

    /// The addressing width, bits 2:1.
    pub fn typ(&self) -> (r: MemSpaceType)
        ensures
            (self.0 >> 1) & 3 == 0 ==> r == MemSpaceType::Bits32,
            (self.0 >> 1) & 3 == 1 ==> r == MemSpaceType::Reserved,
            (self.0 >> 1) & 3 == 2 ==> r == MemSpaceType::Bits64,
            (self.0 >> 1) & 3 == 3 ==> r == MemSpaceType::Undefined,
    {
        proof {
            let v = self.0;
            assert((v & 6) >> 1 == (v >> 1) & 3 && (v >> 1) & 3 < 4) by (bit_vector);
        }
        match (self.0 & 6) >> 1 {
            0 => MemSpaceType::Bits32,
            2 => MemSpaceType::Bits64,
            1 => MemSpaceType::Reserved,
            _ => MemSpaceType::Undefined,
        }
    }

    /// Prefetchable.
    pub fn is_prefetchable(&self) -> (r: bool)
        ensures
            r == (self.0 & 8 == 8),
    {
        self.0 & 8 == 8
    }

    /// The base address carried in bits 31:4.  Does not compose the
    /// upper half of a 64-bit base.
    pub fn address(&self) -> (r: u32)
        ensures
            r == self.0 & 0xffff_fff0,
    {
        self.0 & 0xffff_fff0
    }
}

impl IoSpaceBarValue {
    /// An I/O-space view of a raw BAR value; a value with bit 0 clear
    /// is a memory-space BAR and is refused.
    pub fn try_from(value: BarValue) -> (r: Option<Self>)
        ensures
            value.0 & 1 == 1 ==> r == Some(IoSpaceBarValue(value.0)),
            value.0 & 1 != 1 ==> r is None,
    {
        if value.0 & 1 != 1 {
            None
        } else {
            Some(IoSpaceBarValue(value.0))
        }
    }

    /// The port address carried in bits 31:2.
    pub fn address(&self) -> (r: u32)
        ensures
            r == self.0 & 0xffff_fffc,
    {
        self.0 & 0xffff_fffc
    }
}

} // verus!
