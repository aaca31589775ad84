//! The ports implemented register: one bit per port that the HBA
//! exposes.

use vstd::prelude::*;

use crate::bit;

verus! {

/// The PI register.  A set bit `i` says that port `i` is implemented;
/// for example the value 0x4 exposes only port 2, the value 0x5 ports
/// 0 and 2.
#[derive(Debug, Clone, Copy, PartialEq, Eq, Structural)]
pub struct PortsImplemented(pub u32);

impl PortsImplemented {
    /// Whether port `idx` is implemented.
    pub open spec fn implemented(self, idx: u32) -> bool {
        bit(self.0, idx)
    }

    pub fn from_raw(value: u32) -> (r: Self)
        ensures
            r.0 == value,
    {
        Self(value)
    }

    pub fn get_raw(self) -> (r: u32)
        ensures
            r == self.0,
    {
        self.0
    }

    /// Whether port `idx` is implemented.
    pub fn get(self, idx: u8) -> (r: bool)
        requires
            idx < 32,
        ensures
            r == self.implemented(idx as u32),
    {
        self.0 & (1u32 << idx) != 0
    }
}

} // verus!
