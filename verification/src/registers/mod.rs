//! Typed views of the chip's registers.
//!
//! Each register type maps to and from the integer that travels over the
//! bus. The mapping is pure: the same value always gives the same bits.

use vstd::prelude::*;
use vstd::std_specs::convert::{FromSpec, IntoSpec};
use crate::bus::{read_exchange, write_byte, write_exchange, Transaction};

pub mod adc;
pub mod battery;
pub mod calibration;
pub mod cko;
pub mod code;
pub mod data_rate;
pub mod fifo;
pub mod gpio;
pub mod id;
pub mod pll;
pub mod rc_osc;
pub mod rssi;
pub mod rx;
pub mod tx;
pub mod vco;

pub use adc::{AdcCaptureMode, AdcClockSpeed, AdcControl, RssiMargin};
pub use battery::{
    BatteryDetectConfig, BatteryDetectResult, DetectThreshold, NonSleepModeVoltageSetting,
    SleepModeVoltageSetting,
};
pub use calibration::CalibrationControl;
pub use cko::{CkoPinControl, PinOutputMode};
pub use code::{
    Code1, Code2, Code3, IdErrorCodeTolerance, IdLength, PreabmelPatternDetectionLength,
    PreambleLength,
};
pub use data_rate::DataRate;
pub use fifo::{Fifo1, Fifo2};
pub use gpio::{Gpio1PinControl, Gpio2PinControl, GpioPinFunction};
pub use id::IdData;
pub use pll::{Pll1, Pll2, Pll3, Pll4, Pll5, CHANNEL_REGISTER};
pub use rc_osc::{ClockSelect, RcOsc3};
pub use rssi::RssiCarrierDetectThreshold;
pub use rx::{Bandwidth, LnaGain, MixerGain, Rx, RxGain1};
pub use tx::{MovingAverage, Tx1, Tx2};
pub use vco::{
    VcoCurrentCalibration, VcoCurrentCalibrationResult, VcoSingleBandCalibration1,
    VcoSingleBandCalibration1Result, VcoSingleBandCalibration2, VcoVoltageOutput,
};

verus! {

/// `value`, or `limit` where `value` is larger.
pub open spec fn at_most(value: u8, limit: u8) -> u8 {
    if value < limit {
        value
    } else {
        limit
    }
}

/// The generic top level trait for all register values
pub trait Register {
    /// The address of the register, `0x00` to `0x3F`.
    spec fn address() -> u8;

    fn id() -> (addr: u8)
        ensures
            addr == Self::address(),
            addr <= 0x3F,
    ;
}

/// A marker trait for registers that are readable
pub trait ReadableRegister<V>: Register + From<V> {

}

/// A marker trait for registers that are writable
pub trait WritableRegister<V>: Register + Into<V> {

}

/// The write that puts `reg` into its register.
pub fn write_reg<R: WritableRegister<u8>>(reg: R) -> (t: Transaction)
    ensures
        <R as IntoSpec<u8>>::obeys_into_spec() ==> t@ == write_exchange(
            R::address(),
            seq![<R as IntoSpec<u8>>::into_spec(reg)],
        ),
{
    let value: u8 = reg.into();
    write_byte(R::id(), value)
}

/// The register value that a reply of one byte holds. A reply of another
/// length is no reading of a one-byte register.
pub fn reg_from_reply<R: ReadableRegister<u8>>(reply: &[u8]) -> (reg: Option<R>)
    ensures
        reg is Some <==> reply@.len() == 1,
        <R as FromSpec<u8>>::obeys_from_spec() && reply@.len() == 1 ==> reg == Some(
            <R as FromSpec<u8>>::from_spec(reply@[0]),
        ),
{
    if reply.len() == 1 {
        Some(R::from(reply[0]))
    } else {
        None
    }
}

/// The read that fetches the register of `R`.
pub fn read_reg<R: ReadableRegister<u8>>() -> (t: Transaction)
    ensures
        t@ == read_exchange(R::address(), 1),
{
    crate::bus::read(R::id(), 1)
}

/// The register map: the address of every register type. Two types share an
/// address only where one is what is written to a register and the other
/// what is read from it.
pub proof fn lemma_register_map()
    ensures
        CalibrationControl::address() == 0x02,
        Fifo1::address() == 0x03,
        Fifo2::address() == 0x04,
        IdData::address() == 0x06,
        RcOsc3::address() == 0x09,
        CkoPinControl::address() == 0x0A,
        Gpio1PinControl::address() == 0x0B,
        Gpio2PinControl::address() == 0x0C,
        DataRate::address() == 0x0E,
        Pll1::address() == 0x0F,
        Pll2::address() == 0x10,
        Pll3::address() == 0x11,
        Pll4::address() == 0x12,
        Pll5::address() == 0x13,
        Tx1::address() == 0x14,
        Tx2::address() == 0x15,
        Rx::address() == 0x18,
        RxGain1::address() == 0x19,
        RssiCarrierDetectThreshold::address() == 0x1D,
        AdcControl::address() == 0x1E,
        Code1::address() == 0x1F,
        Code2::address() == 0x20,
        Code3::address() == 0x21,
        VcoCurrentCalibration::address() == 0x24,
        VcoCurrentCalibrationResult::address() == 0x24,
        VcoSingleBandCalibration1::address() == 0x25,
        VcoSingleBandCalibration1Result::address() == 0x25,
        BatteryDetectConfig::address() == 0x27,
        BatteryDetectResult::address() == 0x27,
{
}

} // verus!
