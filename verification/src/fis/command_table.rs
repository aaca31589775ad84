//! The command table of one in-flight command: the outgoing command
//! FIS, the ATAPI command area, and the physical region descriptor
//! table that scatter-gathers the command's DMA buffers (AHCI
//! specification, section 4.2.3).

use vstd::prelude::*;

use crate::hi32;
use crate::lo32;

verus! {

/// One physical region descriptor: a data buffer's physical address
/// and its byte count, encoded as the count minus one with bit 0
/// forced set, plus an interrupt-on-completion flag in the top bit.
#[derive(Debug, Clone, Copy, PartialEq, Eq, Structural)]
pub struct PhysicalRegionDescriptorTable {
    /// Data base address, low 32 bits; 2-byte aligned.
    pub dba: u32,
    /// Data base address, high 32 bits.
    pub dbau: u32,
    /// Interrupt on completion in bit 31, data byte count minus one in
    /// bits 21:0 with bit 0 always set.
    pub i_dbc: u32,
}

/// The descriptor's shorthand name in the AHCI specification.
pub type PRDT = PhysicalRegionDescriptorTable;

impl PhysicalRegionDescriptorTable {
    /// The encoded data byte count field.
    pub open spec fn dbc(self) -> u32 {
        self.i_dbc & 0x003f_ffff
    }

    /// Interrupt on completion.
    pub open spec fn interrupt_on_completion(self) -> bool {
        crate::bit(self.i_dbc, 31)
    }

    /// An all-zero descriptor.
    pub fn default() -> (r: Self)
        ensures
            r.dba == 0 && r.dbau == 0 && r.i_dbc == 0,
    {
        Self { dba: 0, dbau: 0, i_dbc: 0 }
    }

    /// A descriptor for the buffer at physical address `dba` of
    /// `data_byte_count + 1` bytes.  The count field is 22 bits and the
    /// hardware reads it with bit 0 forced set, so an even count and
    /// the odd count one below it describe the same transfer; the value
    /// stored always carries bit 0.
    pub fn new(dba: u64, interrupt_on_completion: bool, data_byte_count: u32) -> (r: Self)
        requires
            data_byte_count <= 0x003f_ffff,
        ensures
            r.dba == lo32(dba),
            r.dbau == hi32(dba),
            r.i_dbc == (if interrupt_on_completion {
                0x8000_0000u32
            } else {
                0u32
            }) | data_byte_count | 1u32,
    {
        Self {
            dba: (dba & 0xffff_ffffu64) as u32,
            dbau: ((dba >> 32) & 0xffff_ffffu64) as u32,
            i_dbc: (if interrupt_on_completion {
                0x8000_0000u32
            } else {
                0u32
            }) | data_byte_count | 1u32,
        }
    }

    /// Data base address, low 32 bits.
    pub fn get_dba(&self) -> (r: u32)
        ensures
            r == self.dba,
    {
        self.dba
    }

    /// Data base address, low 32 bits; the buffer must be 2-byte
    /// aligned.
    pub fn set_dba(&mut self, value: u32)
        requires
            value % 2 == 0,
        ensures
            *final(self) == (PhysicalRegionDescriptorTable { dba: value, ..*old(self) }),
    {
        self.dba = value;
    }

    /// Data base address, high 32 bits.
    pub fn get_dbau(&self) -> (r: u32)
        ensures
            r == self.dbau,
    {
        self.dbau
    }

    /// Data base address, high 32 bits.  Only programmed on an HBA with
    /// 64-bit addressing support; the caller checks CAP.S64A first.
    pub fn set_dbau(&mut self, value: u32)
        ensures
            *final(self) == (PhysicalRegionDescriptorTable { dbau: value, ..*old(self) }),
    {
        self.dbau = value;
    }

    /// Interrupt on completion.
    pub fn get_interrupt_on_completion(&self) -> (r: bool)
        ensures
            r == self.interrupt_on_completion(),
    {
        self.i_dbc & (1u32 << 31) != 0
    }

    /// Interrupt on completion.
    pub fn set_interrupt_on_completion(&mut self, value: bool)
        ensures
            *final(self) == (PhysicalRegionDescriptorTable {
                i_dbc: (old(self).i_dbc & 0x7fff_ffff) | (if value {
                    0x8000_0000u32
                } else {
                    0u32
                }),
                ..*old(self)
            }),
    {
        self.i_dbc = (self.i_dbc & 0x7fff_ffff) | (if value {
            0x8000_0000u32
        } else {
            0u32
        });
    }

    /// Data byte count, as stored.
    pub fn get_dbc(&self) -> (r: u32)
        ensures
            r == self.dbc(),
            r < 0x40_0000,
    {
        proof {
            crate::lemma_field_extract(self.i_dbc);
        }
        self.i_dbc & 0x003f_ffff
    }

    /// Data byte count as the hardware interprets it: the stored field
    /// plus one.
    pub fn get_dbc_adjusted(&self) -> (r: u32)
        ensures
            r == self.dbc() + 1,
    {
        self.get_dbc() + 1
    }

    /// Data byte count.  Bit 0 must be set, as the hardware forces it;
    /// the field is 22 bits wide.
    pub fn set_dbc(&mut self, value: u32)
        requires
            value % 2 == 1,
            value <= 0x003f_ffff,
        ensures
            *final(self) == (PhysicalRegionDescriptorTable {
                i_dbc: (old(self).i_dbc & 0xffc0_0000) | value,
                ..*old(self)
            }),
    {
        self.i_dbc = (self.i_dbc & 0xffc0_0000) | value;
    }
}

/// Encoding a transfer length round-trips: for every even byte count
/// from 2 up to the 4 MiB limit, a descriptor built for it reports that
/// same count back through the adjusted accessor.
pub proof fn lemma_prdt_byte_count_roundtrip(dba: u64, ioc: bool, n: u32)
    requires
        2 <= n <= 0x40_0000,
        n % 2 == 0,
    ensures
        ({
            let r = PhysicalRegionDescriptorTable {
                dba: lo32(dba),
                dbau: hi32(dba),
                i_dbc: (if ioc {
                    0x8000_0000u32
                } else {
                    0u32
                }) | (n - 1) as u32 | 1u32,
            };
            r.dbc() + 1 == n
        }),
{
    let m = (n - 1) as u32;
    assert(2 <= n <= 0x40_0000 && n % 2 == 0 ==> m & 0x003f_ffff == m && ((0x8000_0000u32 | m
        | 1u32) & 0x003f_ffff) == m && ((0u32 | m | 1u32) & 0x003f_ffff) == m) by (bit_vector)
        requires
            m == (n - 1) as u32,
            2 <= n <= 0x40_0000,
            n % 2 == 0,
    ;
}

/// The maximum count of PRDT entries a command table can carry.
pub const MAX_PRDT_ENTRIES: u32 = 65535;

/// The count of PRDT entries that fit on one page alongside the fixed
/// 128-byte head of the command table.
pub const MAX_PRDT_ENTRIES_ON_ONE_PAGE: u32 = 248;

/// A command table: the 64-byte command FIS area, the 16-byte ATAPI
/// command area (the wire form pads to offset 0x80), and the
/// descriptor entries.  The entry count is fixed per command when the
/// table is built.
pub struct CommandTable2 {
    /// Command FIS: for data transfer operations the host-to-device
    /// register FIS, serialized.
    pub cfis: Vec<u8>,
    /// ATAPI command, 12 or 16 bytes.
    pub acmd: Vec<u8>,
    /// Physical region descriptor table, 1 to 65535 entries.
    pub prdt: Vec<PhysicalRegionDescriptorTable>,
}

impl CommandTable2 {
    /// The areas have their wire sizes and the entry count is within
    /// the hardware's limit.
    pub open spec fn wf(self) -> bool {
        self.cfis.len() == 64 && self.acmd.len() == 16 && 0 < self.prdt.len() <= 65535
    }

    /// A table of `num_prdt` descriptors with every byte zero.
    pub fn new(num_prdt: usize) -> (r: Self)
        requires
            0 < num_prdt <= 65535,
        ensures
            r.wf(),
            r.prdt.len() == num_prdt,
            forall|i: int| 0 <= i < 64 ==> r.cfis@[i] == 0u8,
            forall|i: int| 0 <= i < 16 ==> r.acmd@[i] == 0u8,
            forall|i: int|
                0 <= i < num_prdt ==> (#[trigger] r.prdt@[i]).dba == 0 && r.prdt@[i].dbau == 0
                    && r.prdt@[i].i_dbc == 0,
    {
        let mut it = Self { cfis: Vec::new(), acmd: Vec::new(), prdt: Vec::new() };
        it.zeroed_with(num_prdt);
        it
    }

    /// Zeroes the table in place, keeping its entry count.
    pub fn zeroed(&mut self)
        requires
            0 < old(self).prdt.len() <= 65535,
        ensures
            final(self).wf(),
            final(self).prdt.len() == old(self).prdt.len(),
            forall|i: int| 0 <= i < 64 ==> final(self).cfis@[i] == 0u8,
            forall|i: int| 0 <= i < 16 ==> final(self).acmd@[i] == 0u8,
            forall|i: int|
                0 <= i < old(self).prdt.len() ==> (#[trigger] final(self).prdt@[i]).dba == 0
                    && final(self).prdt@[i].dbau == 0 && final(self).prdt@[i].i_dbc == 0,
    {
        let n = self.prdt.len();
        self.zeroed_with(n);
    }

    /// Rebuilds the table as all-zero with `num_prdt` descriptors.
    fn zeroed_with(&mut self, num_prdt: usize)
        requires
            0 < num_prdt <= 65535,
        ensures
            final(self).wf(),
            final(self).prdt.len() == num_prdt,
            forall|i: int| 0 <= i < 64 ==> final(self).cfis@[i] == 0u8,
            forall|i: int| 0 <= i < 16 ==> final(self).acmd@[i] == 0u8,
            forall|i: int|
                0 <= i < num_prdt ==> (#[trigger] final(self).prdt@[i]).dba == 0 && final(self).prdt@[i].dbau == 0 && final(self).prdt@[i].i_dbc == 0,
    {
        let mut cfis: Vec<u8> = Vec::new();
        let mut i: usize = 0;
        while i < 64
            invariant
                i <= 64,
                cfis@.len() == i,
                forall|j: int| 0 <= j < i ==> cfis@[j] == 0u8,
            decreases 64 - i,
        {
            cfis.push(0u8);
            i = i + 1;
        }
        let mut acmd: Vec<u8> = Vec::new();
        let mut k: usize = 0;
        while k < 16
            invariant
                k <= 16,
                acmd@.len() == k,
                forall|j: int| 0 <= j < k ==> acmd@[j] == 0u8,
            decreases 16 - k,
        {
            acmd.push(0u8);
            k = k + 1;
        }
        let mut prdt: Vec<PhysicalRegionDescriptorTable> = Vec::new();
        let mut p: usize = 0;
        while p < num_prdt
            invariant
                p <= num_prdt,
                prdt@.len() == p,
                forall|j: int|
                    0 <= j < p ==> (#[trigger] prdt@[j]).dba == 0 && prdt@[j].dbau == 0
                        && prdt@[j].i_dbc == 0,
            decreases num_prdt - p,
        {
            prdt.push(PhysicalRegionDescriptorTable::default());
            p = p + 1;
        }
        *self = Self { cfis, acmd, prdt };
    }
}

} // verus!
