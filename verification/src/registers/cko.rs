//! The clock output pin control register.

use vstd::prelude::*;
use vstd::std_specs::convert::FromSpecImpl;
use super::{Register, WritableRegister};

verus! {

/// The signal that the clock output pin carries.
#[derive(PartialEq, Eq, Structural, Debug, Copy, Clone)]
pub enum PinOutputMode {
    DckInTxRckInRx,
    FifoPointerFlag,
    Fsync,
    FsyncDiv2,
    FsyncDiv4,
    FsyncDiv8,
}

impl PinOutputMode {
    /// The output select field, in place: bits 3 to 5 of the register.
    pub open spec fn bits(self) -> u8 {
        match self {
            PinOutputMode::DckInTxRckInRx => 0x00,
            PinOutputMode::FifoPointerFlag => 0x10,
            PinOutputMode::Fsync => 0x20,
            PinOutputMode::FsyncDiv2 => 0x28,
            PinOutputMode::FsyncDiv4 => 0x30,
            PinOutputMode::FsyncDiv8 => 0x38,
        }
    }
}

impl Default for PinOutputMode {
    fn default() -> (r: Self)
        ensures
            r == PinOutputMode::FsyncDiv8,
    {
        PinOutputMode::FsyncDiv8
    }
}

/// Pin control of the clock output pin.
#[derive(PartialEq, Eq, Structural, Debug, Copy, Clone)]
pub struct CkoPinControl {
    pub external_clock_output_enabled: bool,
    pub pin_output_mode: PinOutputMode,
    pub invert_output: bool,
    pub output_enabled: bool,
    pub invert_spi_clk_input: bool,
}

impl CkoPinControl {
    /// The register value: the serial clock inversion flag in bit 0, the
    /// output enable flag in bit 1, the output inversion flag in bit 2, the
    /// output select field, and the external clock flag in bit 7.
    pub open spec fn bits(self) -> u8 {
        ((if self.invert_spi_clk_input {
            1int
        } else {
            0int
        }) + (if self.output_enabled {
            2int
        } else {
            0int
        }) + (if self.invert_output {
            4int
        } else {
            0int
        }) + self.pin_output_mode.bits() + (if self.external_clock_output_enabled {
            128int
        } else {
            0int
        })) as u8
    }
}

impl Default for CkoPinControl {
    fn default() -> (r: Self)
        ensures
            r == (CkoPinControl {
                external_clock_output_enabled: true,
                pin_output_mode: PinOutputMode::FsyncDiv8,
                invert_output: false,
                output_enabled: true,
                invert_spi_clk_input: false,
            }),
    {
        Self {
            external_clock_output_enabled: true,
            pin_output_mode: PinOutputMode::FsyncDiv8,
            invert_output: false,
            output_enabled: true,
            invert_spi_clk_input: false,
        }
    }
}

impl Register for CkoPinControl {
    open spec fn address() -> u8 {
        0x0A
    }

    fn id() -> u8 {
        0x0A
    }
}

impl WritableRegister<u8> for CkoPinControl {

}

impl From<CkoPinControl> for u8 {
    fn from(reg: CkoPinControl) -> (r: u8)
        ensures
            r == reg.bits(),
    {
        let external: u8 = if reg.external_clock_output_enabled {
            1
        } else {
            0
        };
        let mode: u8 = match reg.pin_output_mode {
            PinOutputMode::DckInTxRckInRx => 0b0000_0000,
            PinOutputMode::FifoPointerFlag => 0b0001_0000,
            PinOutputMode::Fsync => 0b0010_0000,
            PinOutputMode::FsyncDiv2 => 0b0010_1000,
            PinOutputMode::FsyncDiv4 => 0b0011_0000,
            PinOutputMode::FsyncDiv8 => 0b0011_1000,
        };
        let invert: u8 = if reg.invert_output {
            1
        } else {
            0
        };
        let enabled: u8 = if reg.output_enabled {
            1
        } else {
            0
        };
        let clock: u8 = if reg.invert_spi_clk_input {
            1
        } else {
            0
        };
        assert(external <= 1 && (mode == 0x00 || mode == 0x10 || mode == 0x20 || mode == 0x28 || mode
            == 0x30 || mode == 0x38) && invert <= 1 && enabled <= 1 && clock <= 1 ==> (external << 7
            | mode | invert << 2 | enabled << 1 | clock) == 128 * external + mode + 4 * invert + 2
            * enabled + clock) by (bit_vector);
        external << 7 | mode | invert << 2 | enabled << 1 | clock
    }
}

impl FromSpecImpl<CkoPinControl> for u8 {
    open spec fn obeys_from_spec() -> bool {
        true
    }

    open spec fn from_spec(reg: CkoPinControl) -> u8 {
        reg.bits()
    }
}

} // verus!
