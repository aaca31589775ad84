//! The HBA-level interrupt status register: one pending bit per port,
//! cleared by writing a 1 to the bit.

use vstd::prelude::*;

use crate::bit;

verus! {

/// The HBA interrupt status register.  Clearing produces the value to
/// be written back: the single bit of the port being acknowledged.
#[derive(Debug, Clone, Copy, PartialEq, Eq, Structural)]
pub struct InterruptStatus(pub u32);

impl InterruptStatus {
    /// Whether the interrupt of port `port_index` is pending.
    pub open spec fn pending(self, port_index: u32) -> bool {
        bit(self.0, port_index)
    }

    pub fn from_raw(value: u32) -> (r: Self)
        ensures
            r.0 == value,
    {
        Self(value)
    }

    pub fn get_raw(self) -> (r: u32)
        ensures
            r == self.0,
    {
        self.0
    }

    /// Whether the interrupt of port `port_index` is pending.
    pub fn get(self, port_index: u8) -> (r: bool)
        requires
            port_index < 32,
        ensures
            r == self.pending(port_index as u32),
    {
        self.0 & (1u32 << port_index) != 0
    }

    /// The value to write in order to acknowledge the interrupt of port
    /// `port_index`: only that port's bit, so the write-1-to-clear
    /// semantics leave every other port's pending state untouched.
    pub fn clear(&mut self, port_index: u8)
        requires
            port_index < 32,
        ensures
            final(self).0 == 1u32 << port_index,
    {
        self.0 = 1u32 << port_index;
    }
}

} // verus!
