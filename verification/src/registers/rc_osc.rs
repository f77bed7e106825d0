//! The RC oscillator registers.

use vstd::prelude::*;
use vstd::std_specs::convert::FromSpecImpl;
use super::{Register, WritableRegister};

verus! {

/// Clock of the internal digital block, as a fraction of the system clock.
#[derive(PartialEq, Eq, Structural, Debug, Copy, Clone)]
pub enum ClockSelect {
    FSyncDiv8,
    FSyncDiv16,
    FSyncDiv32,
    FSyncDiv64,
}

impl ClockSelect {
    /// The two-bit code of the selection.
    pub open spec fn code(self) -> u8 {
        match self {
            ClockSelect::FSyncDiv8 => 0,
            ClockSelect::FSyncDiv16 => 1,
            ClockSelect::FSyncDiv32 => 2,
            ClockSelect::FSyncDiv64 => 3,
        }
    }
}

impl Default for ClockSelect {
    fn default() -> (r: Self)
        ensures
            r == ClockSelect::FSyncDiv8,
    {
        ClockSelect::FSyncDiv8
    }
}

/// RC oscillator register 3.
#[derive(PartialEq, Eq, Structural, Debug, Copy, Clone)]
pub struct RcOsc3 {
    /// Clock select for internal digital block Recommend [`ClockSelect::FSyncDiv8`]
    pub clock_select: ClockSelect,
    // There are other fields in here, but they are for internal use only so we don't expose them
}

impl RcOsc3 {
    /// The register value: the clock selection in bits 6 and 7 above the
    /// fixed low bits `0b000101`.
    pub open spec fn bits(self) -> u8 {
        (5 + 64 * self.clock_select.code()) as u8
    }
}

impl Default for RcOsc3 {
    fn default() -> (r: Self)
        ensures
            r.clock_select == ClockSelect::FSyncDiv8,
    {
        RcOsc3 { clock_select: ClockSelect::FSyncDiv8 }
    }
}

impl Register for RcOsc3 {
    open spec fn address() -> u8 {
        0x09
    }

    fn id() -> u8 {
        0x09
    }
}

impl WritableRegister<u8> for RcOsc3 {

}

impl From<RcOsc3> for u8 {
    fn from(reg: RcOsc3) -> (r: u8)
        ensures
            r == reg.bits(),
    {
        match reg.clock_select {
            ClockSelect::FSyncDiv8 => 0b0000_0101,
            ClockSelect::FSyncDiv16 => 0b0100_0101,
            ClockSelect::FSyncDiv32 => 0b1000_0101,
            ClockSelect::FSyncDiv64 => 0b1100_0101,
        }
    }
}

impl FromSpecImpl<RcOsc3> for u8 {
    open spec fn obeys_from_spec() -> bool {
        true
    }

    open spec fn from_spec(reg: RcOsc3) -> u8 {
        reg.bits()
    }
}

} // verus!
