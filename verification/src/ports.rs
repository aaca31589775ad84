//! The per-port register block (AHCI specification, section 3.3).
//!
//! Port 0's block starts at offset 0x100 of the HBA memory window and
//! each further block follows at a spacing of 0x80 bytes, so the last
//! possible port, port 31, starts at offset 0x1080.

pub mod command;
pub mod interrupt_enable;
pub mod interrupt_status;

use vstd::prelude::*;

use crate::ports::command::Command;
use crate::ports::interrupt_enable::InterruptEnable;
use crate::ports::interrupt_status::InterruptStatus;

verus! {

/// A snapshot of one port's register block, read from the memory-mapped
/// window by the embedding runtime and handed to the verified decision
/// functions.
#[derive(Debug, Clone, Copy, PartialEq, Eq, Structural)]
pub struct PortRegister {
    /// Command list base address, low 32 bits; 1024-byte aligned.
    pub clb: u32,
    /// Command list base address, high 32 bits; 0 and read-only when
    /// 64-bit addressing is not supported.
    pub clbu: u32,
    /// FIS base address, low 32 bits; 256-byte aligned without
    /// FIS-based switching.
    pub fb: u32,
    /// FIS base address, high 32 bits; 0 and read-only when 64-bit
    /// addressing is not supported.
    pub fbu: u32,
    /// Interrupt status.
    pub is: InterruptStatus,
    /// Interrupt enable.
    pub ie: InterruptEnable,
    /// Command and status.
    pub cmd: Command,
    /// Task file data.
    pub tfd: u32,
    /// Signature.
    pub sig: u32,
    /// SATA status: detection, speed and power state.
    pub ssts: u32,
    /// SATA control.
    pub sctl: u32,
    /// SATA error and diagnostics.
    pub serr: u32,
    /// SATA active, one bit per outstanding native-queued command.
    pub sact: u32,
    /// Command issue, one bit per in-flight command slot.
    pub ci: u32,
    /// SATA notification.
    pub sntf: u32,
    /// FIS-based switching control.
    pub fbs: u32,
    /// Device sleep.
    pub devslp: u32,
}

impl PortRegister {
    /// The device detection field of the SATA status register.
    pub open spec fn det(self) -> u32 {
        self.ssts & 0xf
    }

    /// Device detection: 3 says a device is present and communication
    /// is established.
    pub fn get_det(self) -> (r: u32)
        ensures
            r == self.det(),
            r < 16,
    {
        proof {
            crate::lemma_field_extract(self.ssts);
        }
        self.ssts & 0xf
    }
}

} // verus!
