//! The calibration control register.

use vstd::prelude::*;
use vstd::std_specs::convert::FromSpecImpl;
use super::{ReadableRegister, Register, WritableRegister};

verus! {

/// The enable bits of the three calibrations. The chip clears a bit when the
/// calibration that it started is done.
#[derive(PartialEq, Eq, Structural, Debug, Copy, Clone)]
pub struct CalibrationControl {
    /// VCO Current calibration enable (Auto clear when done)
    pub vco_current_calibration_enabled: bool,
    /// VCO Bank calibration enable (Auto clear when done)
    pub vco_bank_calibration_enabled: bool,
    /// IF Filter Bank calibration enable (Auto clear when done)
    pub if_filter_bank_calibration_enabled: bool,
}

impl CalibrationControl {
    /// The register value: the IF filter bank bit is bit 0, the VCO bank bit
    /// is bit 1, the VCO current bit is bit 2.
    pub open spec fn bits(self) -> u8 {
        ((if self.if_filter_bank_calibration_enabled {
            1int
        } else {
            0int
        }) + (if self.vco_bank_calibration_enabled {
            2int
        } else {
            0int
        }) + (if self.vco_current_calibration_enabled {
            4int
        } else {
            0int
        })) as u8
    }

    /// The reading of a register value.
    pub open spec fn of_bits(val: u8) -> CalibrationControl {
        CalibrationControl {
            vco_current_calibration_enabled: (val / 4) % 2 == 1,
            vco_bank_calibration_enabled: (val / 2) % 2 == 1,
            if_filter_bank_calibration_enabled: val % 2 == 1,
        }
    }
}

impl Default for CalibrationControl {
    fn default() -> (r: Self)
        ensures
            r == (CalibrationControl {
                vco_current_calibration_enabled: false,
                vco_bank_calibration_enabled: false,
                if_filter_bank_calibration_enabled: false,
            }),
    {
        CalibrationControl {
            vco_current_calibration_enabled: false,
            vco_bank_calibration_enabled: false,
            if_filter_bank_calibration_enabled: false,
        }
    }
}

impl Register for CalibrationControl {
    open spec fn address() -> u8 {
        0x02
    }

    fn id() -> u8 {
        0x02
    }
}

impl ReadableRegister<u8> for CalibrationControl {

}

impl WritableRegister<u8> for CalibrationControl {

}

impl From<u8> for CalibrationControl {
    fn from(val: u8) -> (r: Self)
        ensures
            r == CalibrationControl::of_bits(val),
    {
        assert((0b0000_0100 & val != 0) == ((val / 4) % 2 == 1) && (0b0000_0010 & val != 0) == ((val
            / 2) % 2 == 1) && (0b0000_0001 & val != 0) == (val % 2 == 1)) by (bit_vector);
        Self {
            vco_current_calibration_enabled: 0b0000_0100 & val != 0,
            vco_bank_calibration_enabled: 0b0000_0010 & val != 0,
            if_filter_bank_calibration_enabled: 0b0000_0001 & val != 0,
        }
    }
}

impl FromSpecImpl<u8> for CalibrationControl {
    open spec fn obeys_from_spec() -> bool {
        true
    }

    open spec fn from_spec(val: u8) -> Self {
        CalibrationControl::of_bits(val)
    }
}

impl From<CalibrationControl> for u8 {
    fn from(reg: CalibrationControl) -> (r: u8)
        ensures
            r == reg.bits(),
    {
        let current: u8 = if reg.vco_current_calibration_enabled {
            1
        } else {
            0
        };
        let bank: u8 = if reg.vco_bank_calibration_enabled {
            1
        } else {
            0
        };
        let filter: u8 = if reg.if_filter_bank_calibration_enabled {
            1
        } else {
            0
        };
        assert(current <= 1 && bank <= 1 && filter <= 1 ==> (current << 2 | bank << 1 | filter)
            == 4 * current + 2 * bank + filter) by (bit_vector);
        current << 2 | bank << 1 | filter
    }
}

impl FromSpecImpl<CalibrationControl> for u8 {
    open spec fn obeys_from_spec() -> bool {
        true
    }

    open spec fn from_spec(reg: CalibrationControl) -> u8 {
        reg.bits()
    }
}

/// Writing the enable bits and reading them back gives the same bits.
pub proof fn lemma_calibration_control_round_trip(reg: CalibrationControl)
    ensures
        CalibrationControl::of_bits(reg.bits()) == reg,
        reg.bits() <= 7,
{
}

/// Only the low three bits of the register are read.
pub proof fn lemma_calibration_control_reads_three_bits(val: u8)
    ensures
        CalibrationControl::of_bits(val).bits() == val % 8,
{
}

} // verus!
