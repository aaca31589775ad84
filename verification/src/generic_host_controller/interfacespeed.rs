//! The interface speed field of the capabilities register.

use vstd::prelude::*;

verus! {

/// An interface speed generation.  Values 0 and 4 through 15 are
/// reserved: a future device may report a generation this driver does
/// not know, so the value is kept as an opaque 4-bit field rather than
/// an enumeration.
#[derive(Debug, Clone, Copy, PartialEq, Eq, Structural)]
pub struct InterfaceSpeed(pub u8);

/// Generation 1, 1.5 Gbps.
pub const SPEED_GEN1: u8 = 1;

/// Generation 2, 3 Gbps.
pub const SPEED_GEN2: u8 = 2;

/// Generation 3, 6 Gbps.
pub const SPEED_GEN3: u8 = 3;

impl InterfaceSpeed {
    pub fn from_raw(value: u8) -> (r: Option<Self>)
        ensures
            value < 0x10 ==> r == Some(InterfaceSpeed(value)),
            value >= 0x10 ==> r is None,
    {
        if value < 0x10 {
            Some(Self(value))
        } else {
            None
        }
    }

    pub fn get_raw(self) -> (r: u8)
        ensures
            r == self.0,
    {
        self.0
    }
}

} // verus!
