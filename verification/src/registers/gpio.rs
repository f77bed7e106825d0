//! The pin control registers of the two general purpose pins.

use vstd::prelude::*;
use vstd::std_specs::convert::FromSpecImpl;
use super::{Register, WritableRegister};

verus! {

/// The signal that a general purpose pin carries.
#[derive(PartialEq, Eq, Structural, Debug, Copy, Clone)]
pub enum GpioPinFunction {
    /// Wait until TX or RX finished
    Wtr,
    /// (TX) end of access code / (RX) Frame Sync
    EoacOrFsync,
    /// (TX) TX modulation enable / (RX) Carrier Detect
    TmeoOrCd,
    PreableDetectOutput,
    Default,
    InPhaseDemodulatorInput,
    Sdo,
    Trxd,
    Rxd,
    Txd,
    InPhaseDemodulatorExternalInput,
    ExternalFsyncInput,
}

impl GpioPinFunction {
    /// The function select field, in place: bits 2 to 5 of the register.
    pub open spec fn bits(self) -> u8 {
        match self {
            GpioPinFunction::Wtr => 0x00,
            GpioPinFunction::EoacOrFsync => 0x04,
            GpioPinFunction::TmeoOrCd => 0x08,
            GpioPinFunction::PreableDetectOutput => 0x0C,
            GpioPinFunction::Default => 0x10,
            GpioPinFunction::InPhaseDemodulatorInput => 0x14,
            GpioPinFunction::Sdo => 0x18,
            GpioPinFunction::Trxd => 0x1C,
            GpioPinFunction::Rxd => 0x20,
            GpioPinFunction::Txd => 0x24,
            GpioPinFunction::InPhaseDemodulatorExternalInput => 0x28,
            GpioPinFunction::ExternalFsyncInput => 0x2C,
        }
    }
}

impl GpioPinFunction {
    /// The four-bit function select code.
    pub open spec fn select(self) -> u8 {
        match self {
            GpioPinFunction::Wtr => 0,
            GpioPinFunction::EoacOrFsync => 1,
            GpioPinFunction::TmeoOrCd => 2,
            GpioPinFunction::PreableDetectOutput => 3,
            GpioPinFunction::Default => 4,
            GpioPinFunction::InPhaseDemodulatorInput => 5,
            GpioPinFunction::Sdo => 6,
            GpioPinFunction::Trxd => 7,
            GpioPinFunction::Rxd => 8,
            GpioPinFunction::Txd => 9,
            GpioPinFunction::InPhaseDemodulatorExternalInput => 10,
            GpioPinFunction::ExternalFsyncInput => 11,
        }
    }
}

/// The function select field holds the select code two bits up, so that no
/// two functions share a field value and none reaches into the two flags
/// below it or the two bits above it.
pub proof fn lemma_function_select(function: GpioPinFunction, other: GpioPinFunction)
    ensures
        function.bits() == 4 * function.select(),
        function.select() <= 11,
        function.bits() == other.bits() ==> function == other,
{
}

impl From<GpioPinFunction> for u8 {
    fn from(function: GpioPinFunction) -> (r: u8)
        ensures
            r == function.bits(),
    {
        match function {
            GpioPinFunction::Wtr => 0b0000_0000,
            GpioPinFunction::EoacOrFsync => 0b0000_0100,
            GpioPinFunction::TmeoOrCd => 0b0000_1000,
            GpioPinFunction::PreableDetectOutput => 0b0000_1100,
            GpioPinFunction::Default => 0b0001_0000,
            GpioPinFunction::InPhaseDemodulatorInput => 0b0001_0100,
            GpioPinFunction::Sdo => 0b0001_1000,
            GpioPinFunction::Trxd => 0b0001_1100,
            GpioPinFunction::Rxd => 0b0010_0000,
            GpioPinFunction::Txd => 0b0010_0100,
            GpioPinFunction::InPhaseDemodulatorExternalInput => 0b0010_1000,
            GpioPinFunction::ExternalFsyncInput => 0b0010_1100,
        }
    }
}

impl FromSpecImpl<GpioPinFunction> for u8 {
    open spec fn obeys_from_spec() -> bool {
        true
    }

    open spec fn from_spec(function: GpioPinFunction) -> u8 {
        function.bits()
    }
}

/// The value of a pin control register: the function select field, the
/// inversion flag in bit 1 and the output enable flag in bit 0.
pub open spec fn pin_control_bits(function: GpioPinFunction, invert: bool, enabled: bool) -> u8 {
    (function.bits() + (if invert {
        2int
    } else {
        0int
    }) + (if enabled {
        1int
    } else {
        0int
    })) as u8
}

/// Puts a pin control register together.
fn pin_control(function: GpioPinFunction, invert: bool, enabled: bool) -> (r: u8)
    ensures
        r == pin_control_bits(function, invert, enabled),
{
    let select: u8 = function.into();
    let invert_output: u8 = if invert {
        1
    } else {
        0
    };
    let output_enabled: u8 = if enabled {
        1
    } else {
        0
    };
    assert((select == 0x00 || select == 0x04 || select == 0x08 || select == 0x0C || select == 0x10
        || select == 0x14 || select == 0x18 || select == 0x1C || select == 0x20 || select == 0x24
        || select == 0x28 || select == 0x2C) && invert_output <= 1 && output_enabled <= 1 ==> (select
        | invert_output << 1 | output_enabled) == select + 2 * invert_output + output_enabled)
        by (bit_vector);
    select | invert_output << 1 | output_enabled
}

/// Pin control of GPIO1.
#[derive(PartialEq, Eq, Structural, Debug, Copy, Clone)]
pub struct Gpio1PinControl {
    pub pin_function: GpioPinFunction,
    pub invert_output: bool,
    pub output_enabled: bool,
}

impl Gpio1PinControl {
    /// The register value.
    pub open spec fn bits(self) -> u8 {
        pin_control_bits(self.pin_function, self.invert_output, self.output_enabled)
    }
}

impl Default for Gpio1PinControl {
    fn default() -> (r: Self)
        ensures
            r == (Gpio1PinControl {
                pin_function: GpioPinFunction::Wtr,
                invert_output: false,
                output_enabled: true,
            }),
    {
        Self { pin_function: GpioPinFunction::Wtr, invert_output: false, output_enabled: true }
    }
}

impl Register for Gpio1PinControl {
    open spec fn address() -> u8 {
        0x0B
    }

    fn id() -> u8 {
        0x0B
    }
}

impl WritableRegister<u8> for Gpio1PinControl {

}

impl From<Gpio1PinControl> for u8 {
    fn from(reg: Gpio1PinControl) -> (r: u8)
        ensures
            r == reg.bits(),
    {
        pin_control(reg.pin_function, reg.invert_output, reg.output_enabled)
    }
}

impl FromSpecImpl<Gpio1PinControl> for u8 {
    open spec fn obeys_from_spec() -> bool {
        true
    }

    open spec fn from_spec(reg: Gpio1PinControl) -> u8 {
        reg.bits()
    }
}

/// Pin control of GPIO2.
#[derive(PartialEq, Eq, Structural, Debug, Copy, Clone)]
pub struct Gpio2PinControl {
    pub pin_function: GpioPinFunction,
    pub invert_output: bool,
    pub output_enabled: bool,
}

impl Gpio2PinControl {
    /// The register value.
    pub open spec fn bits(self) -> u8 {
        pin_control_bits(self.pin_function, self.invert_output, self.output_enabled)
    }
}

impl Default for Gpio2PinControl {
    fn default() -> (r: Self)
        ensures
            r == (Gpio2PinControl {
                pin_function: GpioPinFunction::Default,
                invert_output: false,
                output_enabled: true,
            }),
    {
        Self { pin_function: GpioPinFunction::Default, invert_output: false, output_enabled: true }
    }
}

impl Register for Gpio2PinControl {
    open spec fn address() -> u8 {
        0x0C
    }

    fn id() -> u8 {
        0x0C
    }
}

impl WritableRegister<u8> for Gpio2PinControl {

}

impl From<Gpio2PinControl> for u8 {
    fn from(reg: Gpio2PinControl) -> (r: u8)
        ensures
            r == reg.bits(),
    {
        pin_control(reg.pin_function, reg.invert_output, reg.output_enabled)
    }
}

impl FromSpecImpl<Gpio2PinControl> for u8 {
    open spec fn obeys_from_spec() -> bool {
        true
    }

    open spec fn from_spec(reg: Gpio2PinControl) -> u8 {
        reg.bits()
    }
}

} // verus!
