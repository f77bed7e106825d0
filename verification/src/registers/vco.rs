//! The VCO calibration registers.

use vstd::prelude::*;
use vstd::std_specs::convert::FromSpecImpl;
use super::{ReadableRegister, Register, WritableRegister};

verus! {

/// How the VCO current is set.
#[derive(PartialEq, Eq, Structural, Debug, Copy, Clone)]
pub enum VcoCurrentCalibration {
    /// The chip measures it.
    Automatic,
    /// It is set to this value, of which the low four bits count.
    Manual(u8),
}

impl VcoCurrentCalibration {
    /// The register value: zero for the automatic calibration; for a manual
    /// one the value in bits 0 to 3 and bit 4 set.
    pub open spec fn bits(self) -> u8 {
        match self {
            VcoCurrentCalibration::Automatic => 0,
            VcoCurrentCalibration::Manual(val) => (val % 16 + 16) as u8,
        }
    }
}

impl Default for VcoCurrentCalibration {
    fn default() -> (r: Self)
        ensures
            r == VcoCurrentCalibration::Manual(3),
    {
        Self::Manual(0b011)
    }
}

impl Register for VcoCurrentCalibration {
    open spec fn address() -> u8 {
        0x24
    }

    fn id() -> u8 {
        0x24
    }
}

impl WritableRegister<u8> for VcoCurrentCalibration {

}

impl From<VcoCurrentCalibration> for u8 {
    fn from(reg: VcoCurrentCalibration) -> (r: u8)
        ensures
            r == reg.bits(),
    {
        match reg {
            VcoCurrentCalibration::Automatic => 0,
            VcoCurrentCalibration::Manual(val) => {
                assert((val & 0b1111) | 0b1_0000 == val % 16 + 16) by (bit_vector);
                (val & 0b1111) | 0b1_0000
            },
        }
    }
}

impl FromSpecImpl<VcoCurrentCalibration> for u8 {
    open spec fn obeys_from_spec() -> bool {
        true
    }

    open spec fn from_spec(reg: VcoCurrentCalibration) -> u8 {
        reg.bits()
    }
}

/// What the VCO current calibration came to.
#[derive(PartialEq, Eq, Structural, Debug, Copy, Clone)]
pub struct VcoCurrentCalibrationResult {
    /// Whether the calibration went well: the chip sets bit 4 where it did
    /// not.
    pub success: bool,
    pub value: u8,
}

impl VcoCurrentCalibrationResult {
    /// The reading of a register value: bit 4 is the failure flag, bits 0 to
    /// 3 the value.
    pub open spec fn of_bits(val: u8) -> VcoCurrentCalibrationResult {
        VcoCurrentCalibrationResult { success: (val / 16) % 2 == 0, value: val % 16 }
    }
}

impl Register for VcoCurrentCalibrationResult {
    open spec fn address() -> u8 {
        0x24
    }

    fn id() -> u8 {
        0x24
    }
}

impl ReadableRegister<u8> for VcoCurrentCalibrationResult {

}

impl From<u8> for VcoCurrentCalibrationResult {
    fn from(val: u8) -> (r: Self)
        ensures
            r == VcoCurrentCalibrationResult::of_bits(val),
    {
        assert(((val & 0b1_0000) == 0) == ((val / 16) % 2 == 0) && val & 0b1111 == val % 16)
            by (bit_vector);
        Self { success: (val & 0b1_0000) == 0, value: val & 0b1111 }
    }
}

impl FromSpecImpl<u8> for VcoCurrentCalibrationResult {
    open spec fn obeys_from_spec() -> bool {
        true
    }

    open spec fn from_spec(val: u8) -> Self {
        VcoCurrentCalibrationResult::of_bits(val)
    }
}

/// How the VCO band is set.
#[derive(PartialEq, Eq, Structural, Debug, Copy, Clone)]
pub enum VcoSingleBandCalibration1 {
    /// The chip measures it.
    Automatic,
    /// It is set to this value, of which the low three bits count.
    Manual(u8),
}

impl VcoSingleBandCalibration1 {
    /// The register value: zero for the automatic calibration; for a manual
    /// one the value in bits 0 to 2 and bit 3 set.
    pub open spec fn bits(self) -> u8 {
        match self {
            VcoSingleBandCalibration1::Automatic => 0,
            VcoSingleBandCalibration1::Manual(val) => (val % 8 + 8) as u8,
        }
    }
}

impl Default for VcoSingleBandCalibration1 {
    fn default() -> (r: Self)
        ensures
            r == VcoSingleBandCalibration1::Automatic,
    {
        VcoSingleBandCalibration1::Automatic
    }
}

impl Register for VcoSingleBandCalibration1 {
    open spec fn address() -> u8 {
        0x25
    }

    fn id() -> u8 {
        0x25
    }
}

impl WritableRegister<u8> for VcoSingleBandCalibration1 {

}

impl From<VcoSingleBandCalibration1> for u8 {
    fn from(reg: VcoSingleBandCalibration1) -> (r: u8)
        ensures
            r == reg.bits(),
    {
        match reg {
            VcoSingleBandCalibration1::Automatic => 0,
            VcoSingleBandCalibration1::Manual(val) => {
                assert((val & 0b111) | 0b1000 == val % 8 + 8) by (bit_vector);
                (val & 0b111) | 0b1000
            },
        }
    }
}

impl FromSpecImpl<VcoSingleBandCalibration1> for u8 {
    open spec fn obeys_from_spec() -> bool {
        true
    }

    open spec fn from_spec(reg: VcoSingleBandCalibration1) -> u8 {
        reg.bits()
    }
}

/// Where the tuning voltage lies against the two thresholds.
#[derive(PartialEq, Eq, Structural, Debug, Copy, Clone)]
pub enum VcoVoltageOutput {
    /// VT<VTL<VTH
    VtMin,
    /// VTL<VT<VTH
    VtMid,
    /// VTL<VTH<VT
    VtMax,
}

impl VcoVoltageOutput {
    /// The reading of the two-bit field; only the low two bits count.
    pub open spec fn of_code(code: u8) -> VcoVoltageOutput {
        if code % 4 == 0 {
            VcoVoltageOutput::VtMin
        } else if code % 4 == 1 {
            VcoVoltageOutput::VtMid
        } else {
            VcoVoltageOutput::VtMax
        }
    }
}

/// The first VCO band calibration register as read from the chip.
#[derive(PartialEq, Eq, Structural, Debug, Copy, Clone)]
pub struct VcoSingleBandCalibration1Result {
    pub voltage_output: VcoVoltageOutput,
    /// Whether the calibration went well: the chip sets bit 3 where it did
    /// not.
    pub success: bool,
    pub value: u8,
}

impl VcoSingleBandCalibration1Result {
    /// The reading of a register value: bits 4 and 5 are the voltage, bit 3
    /// is the failure flag, bits 0 to 2 the value.
    pub open spec fn of_bits(val: u8) -> VcoSingleBandCalibration1Result {
        VcoSingleBandCalibration1Result {
            voltage_output: VcoVoltageOutput::of_code(val / 16),
            success: (val / 8) % 2 == 0,
            value: val % 8,
        }
    }
}

impl Register for VcoSingleBandCalibration1Result {
    open spec fn address() -> u8 {
        0x25
    }

    fn id() -> u8 {
        0x25
    }
}

impl ReadableRegister<u8> for VcoSingleBandCalibration1Result {

}

impl From<u8> for VcoSingleBandCalibration1Result {
    fn from(val: u8) -> (r: Self)
        ensures
            r == VcoSingleBandCalibration1Result::of_bits(val),
    {
        let voltage: u8 = (val & 0b11_0000) >> 4;
        assert((val & 0b11_0000) >> 4 == (val / 16) % 4 && ((val & 0b1000) == 0) == ((val / 8) % 2
            == 0) && val & 0b111 == val % 8) by (bit_vector);
        Self {
            voltage_output: if voltage == 0b00 {
                VcoVoltageOutput::VtMin
            } else if voltage == 0b01 {
                VcoVoltageOutput::VtMid
            } else {
                VcoVoltageOutput::VtMax
            },
            success: (val & 0b1000) == 0,
            value: val & 0b111,
        }
    }
}

impl FromSpecImpl<u8> for VcoSingleBandCalibration1Result {
    open spec fn obeys_from_spec() -> bool {
        true
    }

    open spec fn from_spec(val: u8) -> Self {
        VcoSingleBandCalibration1Result::of_bits(val)
    }
}

/// The second VCO band calibration register.
#[derive(PartialEq, Eq, Structural, Debug, Copy, Clone)]
pub struct VcoSingleBandCalibration2 {
    pub voltage_upper_threshold: u8,
}

} // verus!
