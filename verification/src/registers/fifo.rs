//! The FIFO registers.

use vstd::prelude::*;
use vstd::std_specs::convert::FromSpecImpl;
use super::{Register, WritableRegister};

verus! {

/// FIFO register 1.
#[derive(PartialEq, Eq, Structural, Debug, Copy, Clone)]
pub struct Fifo1 {
    /// FIFO End Pointer for TX FIFO and Rx FIFO
    pub end_pointer: u8,
}

impl Default for Fifo1 {
    fn default() -> (r: Self)
        ensures
            r.end_pointer == 0x3F,
    {
        Self { end_pointer: 0b0011_1111 }
    }
}

impl Register for Fifo1 {
    open spec fn address() -> u8 {
        0x03
    }

    fn id() -> u8 {
        0x03
    }
}

impl WritableRegister<u8> for Fifo1 {

}

impl From<Fifo1> for u8 {
    fn from(reg: Fifo1) -> (r: u8)
        ensures
            r == reg.end_pointer,
    {
        reg.end_pointer
    }
}

impl FromSpecImpl<Fifo1> for u8 {
    open spec fn obeys_from_spec() -> bool {
        true
    }

    open spec fn from_spec(reg: Fifo1) -> u8 {
        reg.end_pointer
    }
}

/// FIFO register 2.
#[derive(PartialEq, Eq, Structural, Debug, Copy, Clone)]
pub struct Fifo2 {
    /// FIFO Pointer Margin
    pub margin: u8,
    /// Used for Segment FIFO, Refer to chapter 16 of the datasheet for details
    pub segment: u8,
}

impl Fifo2 {
    /// The register value: the low six bits of the segment in bits 0 to 5,
    /// the low two bits of the margin in bits 6 and 7.
    pub open spec fn bits(self) -> u8 {
        (self.segment % 64 + 64 * (self.margin % 4)) as u8
    }
}

impl Default for Fifo2 {
    fn default() -> (r: Self)
        ensures
            r == (Fifo2 { margin: 1, segment: 0 }),
    {
        Self { margin: 1, segment: 0 }
    }
}

impl Register for Fifo2 {
    open spec fn address() -> u8 {
        0x04
    }

    fn id() -> u8 {
        0x04
    }
}

impl WritableRegister<u8> for Fifo2 {

}

impl From<Fifo2> for u8 {
    fn from(reg: Fifo2) -> (r: u8)
        ensures
            r == reg.bits(),
    {
        let segment = reg.segment;
        let margin = reg.margin;
        assert(((segment & 0b0011_1111) | (margin << 6)) == (segment % 64) + 64 * (margin % 4))
            by (bit_vector);
        (segment & 0b0011_1111) | (margin << 6)
    }
}

impl FromSpecImpl<Fifo2> for u8 {
    open spec fn obeys_from_spec() -> bool {
        true
    }

    open spec fn from_spec(reg: Fifo2) -> u8 {
        reg.bits()
    }
}

} // verus!
