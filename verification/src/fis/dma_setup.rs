//! The DMA setup FIS, bidirectional.

use vstd::prelude::*;

use crate::hi32;
use crate::lo32;

verus! {

/// A DMA setup FIS.
#[derive(Debug, Clone, Copy, PartialEq, Eq, Structural)]
pub struct DmaSetup {
    /// FIS type code; always `Type::DMA_SETUP`.
    pub fis_type: u8,
    /// Port multiplier port in bits 7:4, data transfer direction in bit
    /// 2 (1 means device to host), interrupt bit in bit 1,
    /// auto-activate in bit 0.
    pub pmport_dia: u8,
    /// DMA buffer identifier, low 32 bits.
    pub dma_buffer_id_low: u32,
    /// DMA buffer identifier, high 32 bits.
    pub dma_buffer_id_high: u32,
    /// Byte offset into the buffer; the low 2 bits must be 0.
    pub dma_buf_offset: u32,
    /// Number of bytes to transfer; bit 0 must be 0.
    pub transfer_count: u32,
}

impl DmaSetup {
    /// The frame with the type code set and every other field zero.
    pub open spec fn spec_default() -> Self {
        DmaSetup {
            fis_type: 0x41,
            pmport_dia: 0,
            dma_buffer_id_low: 0,
            dma_buffer_id_high: 0,
            dma_buf_offset: 0,
            transfer_count: 0,
        }
    }

    pub fn default() -> (r: Self)
        ensures
            r == Self::spec_default(),
    {
        Self {
            fis_type: 0x41,
            pmport_dia: 0,
            dma_buffer_id_low: 0,
            dma_buffer_id_high: 0,
            dma_buf_offset: 0,
            transfer_count: 0,
        }
    }

    /// The DMA buffer identifier as one 64-bit value.
    pub fn get_dma_buffer(&self) -> (r: u64)
        ensures
            r == ((self.dma_buffer_id_high as u64) << 32) | (self.dma_buffer_id_low as u64),
    {
        ((self.dma_buffer_id_high as u64) << 32) | (self.dma_buffer_id_low as u64)
    }

    /// Splits a 64-bit DMA buffer identifier across the two halves.
    pub fn set_dma_buffer(&mut self, value: u64)
        ensures
            final(self).dma_buffer_id_low == lo32(value),
            final(self).dma_buffer_id_high == hi32(value),
            *final(self) == (DmaSetup {
                dma_buffer_id_low: lo32(value),
                dma_buffer_id_high: hi32(value),
                ..*old(self)
            }),
    {
        self.dma_buffer_id_low = (value & 0xffff_ffffu64) as u32;
        self.dma_buffer_id_high = ((value >> 32) & 0xffff_ffffu64) as u32;
    }
}

} // verus!
