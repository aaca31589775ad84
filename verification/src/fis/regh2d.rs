//! The register FIS, host to device: the 20-byte frame that carries a
//! command or control update from the driver to the drive.

use vstd::prelude::*;

verus! {

/// A host-to-device register FIS.  The trailing reserved dword of the
/// wire format is always zero and is supplied by the serializer.
#[derive(Debug, Clone, Copy, PartialEq, Eq, Structural)]
pub struct RegH2D {
    /// FIS type code; always `Type::REG_H2D`.
    pub fis_type: u8,
    /// Port multiplier port in bits 7:4; bit 7 of the wire convention
    /// used here distinguishes a command (1) from a control update (0).
    pub pmport_cc: u8,
    /// Command register.
    pub command: u8,
    /// Feature register, bits 7:0.
    pub featurel: u8,
    /// LBA low register, bits 7:0.
    pub lba0: u8,
    /// LBA mid register, bits 15:8.
    pub lba1: u8,
    /// LBA high register, bits 23:16.
    pub lba2: u8,
    /// Device register.
    pub device: u8,
    /// LBA register, bits 31:24.
    pub lba3: u8,
    /// LBA register, bits 39:32.
    pub lba4: u8,
    /// LBA register, bits 47:40.
    pub lba5: u8,
    /// Feature register, bits 15:8.
    pub featureh: u8,
    /// Count register, bits 7:0.
    pub countl: u8,
    /// Count register, bits 15:8.
    pub counth: u8,
    /// Isochronous command completion.
    pub icc: u8,
    /// Control register.
    pub control: u8,
}

impl RegH2D {
    /// The frame with the type code set and every other byte zero.
    pub open spec fn spec_default() -> Self {
        RegH2D {
            fis_type: 0x27,
            pmport_cc: 0,
            command: 0,
            featurel: 0,
            lba0: 0,
            lba1: 0,
            lba2: 0,
            device: 0,
            lba3: 0,
            lba4: 0,
            lba5: 0,
            featureh: 0,
            countl: 0,
            counth: 0,
            icc: 0,
            control: 0,
        }
    }

    /// The byte `i` of the serialized frame, within the 16 bytes the
    /// fields occupy.
    pub open spec fn spec_byte(self, i: int) -> u8 {
        if i == 0 {
            self.fis_type
        } else if i == 1 {
            self.pmport_cc
        } else if i == 2 {
            self.command
        } else if i == 3 {
            self.featurel
        } else if i == 4 {
            self.lba0
        } else if i == 5 {
            self.lba1
        } else if i == 6 {
            self.lba2
        } else if i == 7 {
            self.device
        } else if i == 8 {
            self.lba3
        } else if i == 9 {
            self.lba4
        } else if i == 10 {
            self.lba5
        } else if i == 11 {
            self.featureh
        } else if i == 12 {
            self.countl
        } else if i == 13 {
            self.counth
        } else if i == 14 {
            self.icc
        } else {
            self.control
        }
    }

    pub fn default() -> (r: Self)
        ensures
            r == Self::spec_default(),
    {
        Self {
            fis_type: 0x27,
            pmport_cc: 0,
            command: 0,
            featurel: 0,
            lba0: 0,
            lba1: 0,
            lba2: 0,
            device: 0,
            lba3: 0,
            lba4: 0,
            lba5: 0,
            featureh: 0,
            countl: 0,
            counth: 0,
            icc: 0,
            control: 0,
        }
    }

    /// Serializes the frame into the 64-byte command-FIS area of a
    /// command table: the 16 field bytes in wire order, then zeroes,
    /// covering the reserved dword and the rest of the area.
    pub fn copy_into(&self, dst: &mut Vec<u8>)
        ensures
            final(dst)@.len() == 64,
            forall|i: int| 0 <= i < 16 ==> final(dst)@[i] == self.spec_byte(i),
            forall|i: int| 16 <= i < 64 ==> final(dst)@[i] == 0u8,
    {
        let mut out: Vec<u8> = Vec::new();
        out.push(self.fis_type);
        out.push(self.pmport_cc);
        out.push(self.command);
        out.push(self.featurel);
        out.push(self.lba0);
        out.push(self.lba1);
        out.push(self.lba2);
        out.push(self.device);
        out.push(self.lba3);
        out.push(self.lba4);
        out.push(self.lba5);
        out.push(self.featureh);
        out.push(self.countl);
        out.push(self.counth);
        out.push(self.icc);
        out.push(self.control);
        let mut i: usize = 16;
        while i < 64
            invariant
                16 <= i <= 64,
                out@.len() == i,
                forall|j: int| 0 <= j < 16 ==> out@[j] == self.spec_byte(j),
                forall|j: int| 16 <= j < i ==> out@[j] == 0u8,
            decreases 64 - i,
        {
            out.push(0u8);
            i = i + 1;
        }
        *dst = out;
    }
}

} // verus!
