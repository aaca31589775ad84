//! The data FIS, bidirectional.

use vstd::prelude::*;

verus! {

/// A data FIS, padded to 256 bytes: one dword of header followed by
/// 252 payload bytes.
pub struct Data {
    /// FIS type code; always `Type::DATA`.
    pub fis_type: u8,
    /// Port multiplier port in bits 7:4.
    pub pmport: u8,
    /// Payload.
    pub data: [u8; 252],
}

impl Data {
    pub fn default() -> (r: Self)
        ensures
            r.fis_type == 0x46,
            r.pmport == 0,
            forall|i: int| 0 <= i < 252 ==> r.data@[i] == 0u8,
    {
        Self { fis_type: 0x46, pmport: 0, data: [0u8; 252] }
    }
}

} // verus!
