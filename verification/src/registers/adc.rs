//! The ADC control register.

use vstd::prelude::*;
use vstd::std_specs::convert::FromSpecImpl;
use super::{Register, WritableRegister};

verus! {

/// Margin of the RSSI measurement.
#[derive(PartialEq, Eq, Structural, Debug, Copy, Clone)]
pub enum RssiMargin {
    Five,
    Ten,
    Fifteen,
    Twenty,
}

/// Clock of the ADC.
#[derive(PartialEq, Eq, Structural, Debug, Copy, Clone)]
pub enum AdcClockSpeed {
    Mhz4,
    Mhz8,
}

/// Whether the ADC measures once or keeps measuring.
#[derive(PartialEq, Eq, Structural, Debug, Copy, Clone)]
pub enum AdcCaptureMode {
    Single,
    Continuous,
}

impl RssiMargin {
    /// The two-bit code of the margin.
    pub open spec fn code(self) -> u8 {
        match self {
            RssiMargin::Five => 0,
            RssiMargin::Ten => 1,
            RssiMargin::Fifteen => 2,
            RssiMargin::Twenty => 3,
        }
    }
}

impl AdcClockSpeed {
    /// The one-bit code of the clock speed.
    pub open spec fn code(self) -> u8 {
        match self {
            AdcClockSpeed::Mhz4 => 0,
            AdcClockSpeed::Mhz8 => 1,
        }
    }
}

impl AdcCaptureMode {
    /// The one-bit code of the capture mode.
    pub open spec fn code(self) -> u8 {
        match self {
            AdcCaptureMode::Single => 0,
            AdcCaptureMode::Continuous => 1,
        }
    }
}

impl Default for RssiMargin {
    fn default() -> (r: Self)
        ensures
            r == RssiMargin::Twenty,
    {
        RssiMargin::Twenty
    }
}

impl Default for AdcClockSpeed {
    fn default() -> (r: Self)
        ensures
            r == AdcClockSpeed::Mhz4,
    {
        AdcClockSpeed::Mhz4
    }
}

impl Default for AdcCaptureMode {
    fn default() -> (r: Self)
        ensures
            r == AdcCaptureMode::Continuous,
    {
        AdcCaptureMode::Continuous
    }
}

/// Settings of the ADC that measures the signal strength.
#[derive(PartialEq, Eq, Structural, Debug, Copy, Clone)]
pub struct AdcControl {
    pub margin: RssiMargin,
    /// If `true`, RSSI measurement will end when carrier detected and ID code word received
    pub rssi_end_early: bool,
    pub adc_clock_speed: AdcClockSpeed,
    pub capture_mode: AdcCaptureMode,
}

impl AdcControl {
    /// The register value: the capture mode in bit 0, bit 1 set, the clock
    /// speed in bit 4, the early end flag in bit 5, the margin in bits 6 and
    /// 7.
    pub open spec fn bits(self) -> u8 {
        (2 + self.capture_mode.code() + 16 * self.adc_clock_speed.code() + (if self.rssi_end_early {
            32int
        } else {
            0int
        }) + 64 * self.margin.code()) as u8
    }
}

impl Default for AdcControl {
    fn default() -> (r: Self)
        ensures
            r == (AdcControl {
                margin: RssiMargin::Twenty,
                rssi_end_early: false,
                adc_clock_speed: AdcClockSpeed::Mhz4,
                capture_mode: AdcCaptureMode::Continuous,
            }),
    {
        AdcControl {
            margin: RssiMargin::Twenty,
            rssi_end_early: false,
            adc_clock_speed: AdcClockSpeed::Mhz4,
            capture_mode: AdcCaptureMode::Continuous,
        }
    }
}

impl Register for AdcControl {
    open spec fn address() -> u8 {
        0x1E
    }

    fn id() -> u8 {
        0x1E
    }
}

impl WritableRegister<u8> for AdcControl {

}

impl From<AdcControl> for u8 {
    fn from(reg: AdcControl) -> (r: u8)
        ensures
            r == reg.bits(),
    {
        let margin: u8 = match reg.margin {
            RssiMargin::Five => 0b0000_0000,
            RssiMargin::Ten => 0b0100_0000,
            RssiMargin::Fifteen => 0b1000_0000,
            RssiMargin::Twenty => 0b1100_0000,
        };
        let early: u8 = if reg.rssi_end_early {
            0b0010_0000
        } else {
            0
        };
        let speed: u8 = match reg.adc_clock_speed {
            AdcClockSpeed::Mhz4 => 0b0000_0000,
            AdcClockSpeed::Mhz8 => 0b0001_0000,
        };
        let mode: u8 = match reg.capture_mode {
            AdcCaptureMode::Single => 0b0000_0000,
            AdcCaptureMode::Continuous => 0b0000_0001,
        };
        assert((margin == 0 || margin == 0x40 || margin == 0x80 || margin == 0xC0) && (early == 0
            || early == 0x20) && (speed == 0 || speed == 0x10) && mode <= 1 ==> (0b0000_0010u8
            | margin | early | speed | mode) == 2 + margin + early + speed + mode) by (bit_vector);
        0b0000_0010 | margin | early | speed | mode
    }
}

impl FromSpecImpl<AdcControl> for u8 {
    open spec fn obeys_from_spec() -> bool {
        true
    }

    open spec fn from_spec(reg: AdcControl) -> u8 {
        reg.bits()
    }
}

} // verus!
