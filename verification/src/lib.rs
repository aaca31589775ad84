//! Verified core of an AHCI (SATA host bus adapter) driver.
//!
//! The crate models every hardware register as a plain 32-bit value and
//! verifies the logic that interprets and produces those values: the
//! bitfield views of the Generic Host Control block and of the per-port
//! register block, the Frame Information Structures and command
//! structures that are exchanged with the device over DMA, and the
//! bring-up, stop/start and command-submission protocols, expressed as
//! step functions from an observed register snapshot to the next
//! register write.  The embedding runtime performs the actual volatile
//! memory-mapped accesses and busy-wait sleeps, feeding each observation
//! into the verified step functions and carrying out the writes they
//! return.

use vstd::prelude::*;

pub mod generic_host_controller;
pub mod hba;
pub mod pci;
pub mod port;
pub mod port_init;
pub mod registry;
pub mod fis;
pub mod ports;

verus! {

/// The low 32 bits of a 64-bit address, as programmed into the lower
/// half of a split register pair.
pub open spec fn lo32(v: u64) -> u32 {
    (v & 0xffff_ffffu64) as u32
}

/// The high 32 bits of a 64-bit address, as programmed into the upper
/// half of a split register pair.
pub open spec fn hi32(v: u64) -> u32 {
    ((v >> 32) & 0xffff_ffffu64) as u32
}

/// True when bit `i` of `v` is set.
pub open spec fn bit(v: u32, i: u32) -> bool {
    v & (1u32 << i) != 0
}

/// The value written back by a read/write bit update: bit `i` of `v` is
/// forced to `value`, every other bit keeps its old state.
pub open spec fn with_bit(v: u32, i: u32, value: bool) -> u32 {
    if value {
        v | (1u32 << i)
    } else {
        v & !(1u32 << i)
    }
}

/// The state of a write-1-to-clear register after `written` has been
/// stored into it: every bit that was written as 1 is cleared, every bit
/// written as 0 keeps its old state.
pub open spec fn w1c_apply(status: u32, written: u32) -> u32 {
    status & !written
}

/// Shifted-mask register fields: the executable accessors extract a
/// field as `(v & mask) >> shift`, the specifications read it as
/// `(v >> shift) & width_mask`.  The two forms agree, and every field is
/// bounded by its width.
pub proof fn lemma_field_extract(v: u32)
    by (bit_vector)
    ensures
        v & 0xf < 16,
        v & 0x1f < 32,
        (v >> 8) & 0x1f < 32,
        ((v & 0x1f00) >> 8) == (v >> 8) & 0x1f,
        (v >> 20) & 0xf < 16,
        ((v & 0x00f0_0000) >> 20) == (v >> 20) & 0xf,
        (v >> 28) & 0xf < 16,
        ((v & 0xf000_0000) >> 28) == (v >> 28) & 0xf,
        (v >> 12) & 0xf < 16,
        ((v & 0x0000_f000) >> 12) == (v >> 12) & 0xf,
        (v >> 16) & 0xffff < 0x1_0000,
        ((v & 0xffff_0000) >> 16) == (v >> 16) & 0xffff,
        v & 0x3f_ffff < 0x40_0000,
{
}

/// Forcing bit `i` to `value` changes that bit alone.
pub proof fn lemma_with_bit_effect(v: u32, i: u32, value: bool)
    requires
        i < 32,
    ensures
        bit(with_bit(v, i, value), i) == value,
        forall|j: u32| j < 32 && j != i ==> bit(with_bit(v, i, value), j) == bit(v, j),
{
    assert(bit(with_bit(v, i, value), i) == value && forall|j: u32|
        j < 32 && j != i ==> bit(with_bit(v, i, value), j) == bit(v, j)) by (bit_vector)
        requires
            i < 32,
    ;
}

/// Writing the single-bit mask of flag `i` to a write-1-to-clear
/// register clears flag `i` and leaves every other flag as it was.
pub proof fn lemma_w1c_single_bit(status: u32, i: u32, j: u32)
    requires
        i < 32,
        j < 32,
        j != i,
    ensures
        !bit(w1c_apply(status, 1u32 << i), i),
        bit(w1c_apply(status, 1u32 << i), j) == bit(status, j),
{
    assert(!bit(w1c_apply(status, 1u32 << i), i) && bit(w1c_apply(status, 1u32 << i), j)
        == bit(status, j)) by (bit_vector)
        requires
            i < 32,
            j < 32,
            j != i,
    ;
}

} // verus!
