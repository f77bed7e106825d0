//! The transmitter registers.

use vstd::prelude::*;
use vstd::std_specs::convert::FromSpecImpl;
use super::{at_most, Register, WritableRegister};

verus! {

/// Length of the moving average that shapes the data when the filter is off.
#[derive(PartialEq, Eq, Structural, Debug, Copy, Clone)]
pub enum MovingAverage {
    TwoBit,
    FourBit,
    EightBit,
}

/// The two-bit code of the moving average selection.
pub open spec fn moving_average_code(selection: Option<MovingAverage>) -> u8 {
    match selection {
        None => 0,
        Some(MovingAverage::TwoBit) => 1,
        Some(MovingAverage::FourBit) => 2,
        Some(MovingAverage::EightBit) => 3,
    }
}

/// TX register 1.
#[derive(PartialEq, Debug, Copy, Clone)]
pub struct Tx1 {
    // Moving average for non-filter select
    pub moving_average: Option<MovingAverage>,
    pub data_invert: bool,
    pub modulation_enable: bool,
    pub filter_enable: bool,
    pub fdp: u8,
}

impl Tx1 {
    /// The register value: the frequency deviation power, at most 7, in bits
    /// 0 to 2, the filter flag in bit 3, the modulation flag in bit 4, the
    /// inversion flag in bit 5, the moving average in bits 6 and 7.
    pub open spec fn bits(self) -> u8 {
        (at_most(self.fdp, 7) + (if self.filter_enable {
            8int
        } else {
            0int
        }) + (if self.modulation_enable {
            16int
        } else {
            0int
        }) + (if self.data_invert {
            32int
        } else {
            0int
        }) + 64 * moving_average_code(self.moving_average)) as u8
    }
}

impl Default for Tx1 {
    fn default() -> (r: Self)
        ensures
            r == (Tx1 {
                moving_average: None,
                data_invert: false,
                modulation_enable: true,
                filter_enable: false,
                fdp: 6,
            }),
    {
        Self {
            moving_average: None,
            data_invert: false,
            modulation_enable: true,
            filter_enable: false,
            fdp: 0b110,
        }
    }
}

impl Register for Tx1 {
    open spec fn address() -> u8 {
        0x14
    }

    fn id() -> u8 {
        0x14
    }
}

impl WritableRegister<u8> for Tx1 {

}

impl From<Tx1> for u8 {
    fn from(reg: Tx1) -> (r: u8)
        ensures
            r == reg.bits(),
    {
        let invert: u8 = if reg.data_invert {
            1
        } else {
            0
        };
        let modulation: u8 = if reg.modulation_enable {
            1
        } else {
            0
        };
        let filter: u8 = if reg.filter_enable {
            1
        } else {
            0
        };
        let fdp: u8 = if reg.fdp < 0b111 {
            reg.fdp
        } else {
            0b111
        };
        let average: u8 = match reg.moving_average {
            None => 0b00,
            Some(MovingAverage::TwoBit) => 0b01,
            Some(MovingAverage::FourBit) => 0b10,
            Some(MovingAverage::EightBit) => 0b11,
        };
        assert(invert <= 1 && modulation <= 1 && filter <= 1 && fdp <= 7 && average <= 3 ==> (invert
            << 5 | modulation << 4 | filter << 3 | fdp | average << 6) == fdp + 8 * filter + 16
            * modulation + 32 * invert + 64 * average) by (bit_vector);
        invert << 5 | modulation << 4 | filter << 3 | fdp | average << 6
    }
}

impl FromSpecImpl<Tx1> for u8 {
    open spec fn obeys_from_spec() -> bool {
        true
    }

    open spec fn from_spec(reg: Tx1) -> u8 {
        reg.bits()
    }
}

/// TX register 2.
#[derive(PartialEq, Eq, Structural, Debug, Copy, Clone)]
pub struct Tx2 {
    // Moving average for non-filter select
    pub fd: u8,
}

impl Tx2 {
    /// The register value: the frequency deviation, at most 31, in bits 0 to
    /// 4, and bit 5 set.
    pub open spec fn bits(self) -> u8 {
        (at_most(self.fd, 31) + 32) as u8
    }
}

impl Default for Tx2 {
    fn default() -> (r: Self)
        ensures
            r.fd == 11,
    {
        Self { fd: 0b01011 }
    }
}

impl Register for Tx2 {
    open spec fn address() -> u8 {
        0x15
    }

    fn id() -> u8 {
        0x15
    }
}

impl WritableRegister<u8> for Tx2 {

}

impl From<Tx2> for u8 {
    fn from(reg: Tx2) -> (r: u8)
        ensures
            r == reg.bits(),
    {
        let fd: u8 = if reg.fd < 0b11111 {
            reg.fd
        } else {
            0b11111
        };
        assert(fd <= 31 ==> (fd | 0b0010_0000) == fd + 32) by (bit_vector);
        fd | 0b0010_0000
    }
}

impl FromSpecImpl<Tx2> for u8 {
    open spec fn obeys_from_spec() -> bool {
        true
    }

    open spec fn from_spec(reg: Tx2) -> u8 {
        reg.bits()
    }
}

} // verus!
