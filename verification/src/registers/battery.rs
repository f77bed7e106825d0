//! The battery detect register.

use vstd::prelude::*;
use vstd::std_specs::convert::FromSpecImpl;
use super::{ReadableRegister, Register, WritableRegister};

verus! {

/// Supply voltage of the digital part in sleep mode.
#[derive(PartialEq, Eq, Structural, Debug, Copy, Clone)]
pub enum SleepModeVoltageSetting {
    /// 3/5 * REGI
    ThreeFifth,
    /// 3/4 * REGI
    ThreeForths,
}

/// Supply voltage of the digital and analog parts outside sleep mode.
#[derive(PartialEq, Eq, Structural, Debug, Copy, Clone)]
pub enum NonSleepModeVoltageSetting {
    /// 1.8V
    V18,
    /// 1.9V
    V19,
    /// 2.0V
    V20,
    /// 2.1V
    V21,
}

/// Voltage below which the battery counts as low.
#[derive(PartialEq, Eq, Structural, Debug, Copy, Clone)]
pub enum DetectThreshold {
    /// 2.0V
    V20,
    /// 2.1V
    V21,
    /// 2.2V
    V22,
    /// 2.3V
    V23,
    /// 2.4V
    V24,
    /// 2.5V
    V25,
    /// 2.6V
    V26,
    /// 2.7V
    V27,
}

impl SleepModeVoltageSetting {
    /// The one-bit code of the setting.
    pub open spec fn code(self) -> u8 {
        match self {
            SleepModeVoltageSetting::ThreeFifth => 0,
            SleepModeVoltageSetting::ThreeForths => 1,
        }
    }
}

impl NonSleepModeVoltageSetting {
    /// The two-bit code of the setting: the higher the voltage, the lower
    /// the code.
    pub open spec fn code(self) -> u8 {
        match self {
            NonSleepModeVoltageSetting::V18 => 3,
            NonSleepModeVoltageSetting::V19 => 2,
            NonSleepModeVoltageSetting::V20 => 1,
            NonSleepModeVoltageSetting::V21 => 0,
        }
    }
}

impl DetectThreshold {
    /// The three-bit code of the threshold: tenths of a volt above 2.0 V.
    pub open spec fn code(self) -> u8 {
        match self {
            DetectThreshold::V20 => 0,
            DetectThreshold::V21 => 1,
            DetectThreshold::V22 => 2,
            DetectThreshold::V23 => 3,
            DetectThreshold::V24 => 4,
            DetectThreshold::V25 => 5,
            DetectThreshold::V26 => 6,
            DetectThreshold::V27 => 7,
        }
    }
}

impl Default for SleepModeVoltageSetting {
    fn default() -> (r: Self)
        ensures
            r == SleepModeVoltageSetting::ThreeFifth,
    {
        SleepModeVoltageSetting::ThreeFifth
    }
}

impl Default for NonSleepModeVoltageSetting {
    fn default() -> (r: Self)
        ensures
            r == NonSleepModeVoltageSetting::V21,
    {
        NonSleepModeVoltageSetting::V21
    }
}

impl Default for DetectThreshold {
    fn default() -> (r: Self)
        ensures
            r == DetectThreshold::V23,
    {
        DetectThreshold::V23
    }
}

/// Settings of the battery detector, as written to the chip.
#[derive(PartialEq, Eq, Structural, Debug, Copy, Clone)]
pub struct BatteryDetectConfig {
    /// VDD D voltage setting in Sleep mode
    pub sleep_voltage_setting: SleepModeVoltageSetting,
    /// VDD D and VDD A voltage setting in non-Sleep mode
    pub nonsleep_voltage_setting: NonSleepModeVoltageSetting,
    /// Battery voltage detect threshold
    pub detect_threshold: DetectThreshold,
    /// Battery detect threshold enabled
    pub detect_enabled: bool,
}

impl BatteryDetectConfig {
    /// The register value: the enable flag in bit 0, the threshold in bits 1
    /// to 3, the voltage outside sleep mode in bits 5 and 6, the voltage in
    /// sleep mode in bit 7.
    pub open spec fn bits(self) -> u8 {
        ((if self.detect_enabled {
            1int
        } else {
            0int
        }) + 2 * self.detect_threshold.code() + 32 * self.nonsleep_voltage_setting.code() + 128
            * self.sleep_voltage_setting.code()) as u8
    }
}

impl Default for BatteryDetectConfig {
    fn default() -> (r: Self)
        ensures
            r == (BatteryDetectConfig {
                sleep_voltage_setting: SleepModeVoltageSetting::ThreeFifth,
                nonsleep_voltage_setting: NonSleepModeVoltageSetting::V21,
                detect_threshold: DetectThreshold::V23,
                detect_enabled: false,
            }),
    {
        BatteryDetectConfig {
            sleep_voltage_setting: SleepModeVoltageSetting::ThreeFifth,
            nonsleep_voltage_setting: NonSleepModeVoltageSetting::V21,
            detect_threshold: DetectThreshold::V23,
            detect_enabled: false,
        }
    }
}

impl Register for BatteryDetectConfig {
    open spec fn address() -> u8 {
        0x27
    }

    fn id() -> u8 {
        0x27
    }
}

impl WritableRegister<u8> for BatteryDetectConfig {

}

impl From<BatteryDetectConfig> for u8 {
    fn from(reg: BatteryDetectConfig) -> (r: u8)
        ensures
            r == reg.bits(),
    {
        let enabled: u8 = if reg.detect_enabled {
            1
        } else {
            0
        };
        let threshold: u8 = match reg.detect_threshold {
            DetectThreshold::V20 => 0b000,
            DetectThreshold::V21 => 0b001,
            DetectThreshold::V22 => 0b010,
            DetectThreshold::V23 => 0b011,
            DetectThreshold::V24 => 0b100,
            DetectThreshold::V25 => 0b101,
            DetectThreshold::V26 => 0b110,
            DetectThreshold::V27 => 0b111,
        };
        let nonsleep: u8 = match reg.nonsleep_voltage_setting {
            NonSleepModeVoltageSetting::V18 => 0b11,
            NonSleepModeVoltageSetting::V19 => 0b10,
            NonSleepModeVoltageSetting::V20 => 0b01,
            NonSleepModeVoltageSetting::V21 => 0b00,
        };
        let sleep: u8 = match reg.sleep_voltage_setting {
            SleepModeVoltageSetting::ThreeFifth => 0b0,
            SleepModeVoltageSetting::ThreeForths => 0b1,
        };
        assert(enabled <= 1 && threshold <= 7 && nonsleep <= 3 && sleep <= 1 ==> (enabled | threshold
            << 1 | nonsleep << 5 | sleep << 7) == enabled + 2 * threshold + 32 * nonsleep + 128
            * sleep) by (bit_vector);
        enabled | threshold << 1 | nonsleep << 5 | sleep << 7
    }
}

impl FromSpecImpl<BatteryDetectConfig> for u8 {
    open spec fn obeys_from_spec() -> bool {
        true
    }

    open spec fn from_spec(reg: BatteryDetectConfig) -> u8 {
        reg.bits()
    }
}

/// What the battery detector found, as read from the chip.
#[derive(PartialEq, Eq, Structural, Debug, Copy, Clone)]
pub struct BatteryDetectResult {
    /// Battery detection flag
    pub voltage_above_threshold: bool,
}

impl BatteryDetectResult {
    /// The reading of a register value: bit 4 is the detection flag.
    pub open spec fn of_bits(val: u8) -> BatteryDetectResult {
        BatteryDetectResult { voltage_above_threshold: (val / 16) % 2 == 1 }
    }
}

impl Default for BatteryDetectResult {
    fn default() -> (r: Self)
        ensures
            r == (BatteryDetectResult { voltage_above_threshold: false }),
    {
        BatteryDetectResult { voltage_above_threshold: false }
    }
}

impl Register for BatteryDetectResult {
    open spec fn address() -> u8 {
        0x27
    }

    fn id() -> u8 {
        0x27
    }
}

impl ReadableRegister<u8> for BatteryDetectResult {

}

impl From<u8> for BatteryDetectResult {
    fn from(val: u8) -> (r: Self)
        ensures
            r == BatteryDetectResult::of_bits(val),
    {
        assert(((val & 0b0001_0000) != 0) == ((val / 16) % 2 == 1)) by (bit_vector);
        Self { voltage_above_threshold: (val & 0b0001_0000) != 0 }
    }
}

impl FromSpecImpl<u8> for BatteryDetectResult {
    open spec fn obeys_from_spec() -> bool {
        true
    }

    open spec fn from_spec(val: u8) -> Self {
        BatteryDetectResult::of_bits(val)
    }
}

} // verus!
