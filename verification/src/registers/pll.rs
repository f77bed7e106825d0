//! The PLL registers.

use vstd::prelude::*;
use vstd::std_specs::convert::FromSpecImpl;
use super::{at_most, ReadableRegister, Register, WritableRegister};

verus! {

/// Address of the channel register.
pub const CHANNEL_REGISTER: u8 = 0x0F;

/// PLL register 1: the channel.
#[derive(PartialEq, Eq, Structural, Debug, Copy, Clone)]
pub struct Pll1 {
    // Not sure what this actually represents - this is probably wrong
    pub lo_channel: u8,
}

impl Default for Pll1 {
    fn default() -> (r: Self)
        ensures
            r.lo_channel == 0,
    {
        Self { lo_channel: 0 }
    }
}

impl Register for Pll1 {
    open spec fn address() -> u8 {
        0x0F
    }

    fn id() -> u8 {
        0x0F
    }
}

impl ReadableRegister<u8> for Pll1 {

}

impl WritableRegister<u8> for Pll1 {

}

impl From<u8> for Pll1 {
    fn from(lo_channel: u8) -> (r: Self)
        ensures
            r.lo_channel == lo_channel,
    {
        Self { lo_channel }
    }
}

impl FromSpecImpl<u8> for Pll1 {
    open spec fn obeys_from_spec() -> bool {
        true
    }

    open spec fn from_spec(lo_channel: u8) -> Self {
        Pll1 { lo_channel }
    }
}

impl From<Pll1> for u8 {
    fn from(reg: Pll1) -> (r: u8)
        ensures
            r == reg.lo_channel,
    {
        reg.lo_channel
    }
}

impl FromSpecImpl<Pll1> for u8 {
    open spec fn obeys_from_spec() -> bool {
        true
    }

    open spec fn from_spec(reg: Pll1) -> u8 {
        reg.lo_channel
    }
}

/// PLL register 2.
#[derive(PartialEq, Eq, Structural, Debug, Copy, Clone)]
pub struct Pll2 {
    // Not sure what this actually represents - this is probably wrong
    pub crystal_freq_doubler: bool,
    pub rf_pll_ref_counter: u8,
    pub pll_chn_step: u8,
    pub ip8: bool,
}

impl Pll2 {
    /// The register value: bit 0 is `ip8`, bits 1 to 4 hold the channel
    /// step, at most 15, bits 5 and 6 the reference counter, at most 3, and
    /// bit 7 is the doubler flag.
    pub open spec fn bits(self) -> u8 {
        ((if self.ip8 {
            1int
        } else {
            0int
        }) + 2 * at_most(self.pll_chn_step, 15) + 32 * at_most(self.rf_pll_ref_counter, 3) + (
        if self.crystal_freq_doubler {
            128int
        } else {
            0int
        })) as u8
    }

    /// The reading of a register value.
    pub open spec fn of_bits(val: u8) -> Pll2 {
        Pll2 {
            crystal_freq_doubler: val >= 128,
            rf_pll_ref_counter: (val / 32) % 4,
            pll_chn_step: (val / 2) % 16,
            ip8: val % 2 == 1,
        }
    }

    /// Whether each field fits the bits that the register has for it.
    pub open spec fn in_range(self) -> bool {
        self.rf_pll_ref_counter <= 3 && self.pll_chn_step <= 15
    }
}

impl Default for Pll2 {
    fn default() -> (r: Self)
        ensures
            r == (Pll2 {
                crystal_freq_doubler: true,
                rf_pll_ref_counter: 0,
                pll_chn_step: 15,
                ip8: false,
            }),
    {
        Self { crystal_freq_doubler: true, rf_pll_ref_counter: 0, pll_chn_step: 0b1111, ip8: false }
    }
}

impl Register for Pll2 {
    open spec fn address() -> u8 {
        0x10
    }

    fn id() -> u8 {
        0x10
    }
}

impl ReadableRegister<u8> for Pll2 {

}

impl WritableRegister<u8> for Pll2 {

}

impl From<u8> for Pll2 {
    fn from(val: u8) -> (r: Self)
        ensures
            r == Pll2::of_bits(val),
    {
        assert(((val & 0b1000_0000) != 0) == (val >= 128) && (val & 0b0110_0000) >> 5 == (val / 32)
            % 4 && (val & 0b0001_1110) >> 1 == (val / 2) % 16 && ((val & 0b1) != 0) == (val % 2
            == 1)) by (bit_vector);
        Self {
            crystal_freq_doubler: (val & 0b1000_0000) != 0,
            rf_pll_ref_counter: (val & 0b0110_0000) >> 5,
            pll_chn_step: (val & 0b0001_1110) >> 1,
            ip8: (val & 0b1) != 0,
        }
    }
}

impl FromSpecImpl<u8> for Pll2 {
    open spec fn obeys_from_spec() -> bool {
        true
    }

    open spec fn from_spec(val: u8) -> Self {
        Pll2::of_bits(val)
    }
}

impl From<Pll2> for u8 {
    fn from(reg: Pll2) -> (r: u8)
        ensures
            r == reg.bits(),
    {
        let doubler: u8 = if reg.crystal_freq_doubler {
            1
        } else {
            0
        };
        let counter: u8 = if reg.rf_pll_ref_counter < 0b11 {
            reg.rf_pll_ref_counter
        } else {
            0b11
        };
        let step: u8 = if reg.pll_chn_step < 0b1111 {
            reg.pll_chn_step
        } else {
            0b1111
        };
        let ip8: u8 = if reg.ip8 {
            1
        } else {
            0
        };
        assert(doubler <= 1 && counter <= 3 && step <= 15 && ip8 <= 1 ==> (doubler << 7 | counter << 5
            | step << 1 | ip8) == 128 * doubler + 32 * counter + 2 * step + ip8) by (bit_vector);
        doubler << 7 | counter << 5 | step << 1 | ip8
    }
}

impl FromSpecImpl<Pll2> for u8 {
    open spec fn obeys_from_spec() -> bool {
        true
    }

    open spec fn from_spec(reg: Pll2) -> u8 {
        reg.bits()
    }
}

/// Every register value reads as fields that are in range and that write
/// back as the same value.
pub proof fn lemma_pll2_value_round_trip(val: u8)
    ensures
        Pll2::of_bits(val).in_range(),
        Pll2::of_bits(val).bits() == val,
{
}

/// Fields that are in range are read back as they were written; a field that
/// is too large is written as the largest value that fits.
pub proof fn lemma_pll2_fields_round_trip(reg: Pll2)
    ensures
        reg.in_range() ==> Pll2::of_bits(reg.bits()) == reg,
        Pll2::of_bits(reg.bits()) == (Pll2 {
            rf_pll_ref_counter: at_most(reg.rf_pll_ref_counter, 3),
            pll_chn_step: at_most(reg.pll_chn_step, 15),
            ..reg
        }),
{
}

/// PLL register 3.
#[derive(PartialEq, Eq, Structural, Debug, Copy, Clone)]
pub struct Pll3 {
    pub bip: u8,
}

impl Default for Pll3 {
    fn default() -> (r: Self)
        ensures
            r.bip == 0x04,
    {
        Self { bip: 0x04 }
    }
}

impl Register for Pll3 {
    open spec fn address() -> u8 {
        0x11
    }

    fn id() -> u8 {
        0x11
    }
}

impl ReadableRegister<u8> for Pll3 {

}

impl WritableRegister<u8> for Pll3 {

}

impl From<u8> for Pll3 {
    fn from(bip: u8) -> (r: Self)
        ensures
            r.bip == bip,
    {
        Self { bip }
    }
}

impl FromSpecImpl<u8> for Pll3 {
    open spec fn obeys_from_spec() -> bool {
        true
    }

    open spec fn from_spec(bip: u8) -> Self {
        Pll3 { bip }
    }
}

impl From<Pll3> for u8 {
    fn from(reg: Pll3) -> (r: u8)
        ensures
            r == reg.bip,
    {
        reg.bip
    }
}

impl FromSpecImpl<Pll3> for u8 {
    open spec fn obeys_from_spec() -> bool {
        true
    }

    open spec fn from_spec(reg: Pll3) -> u8 {
        reg.bip
    }
}

/// PLL register 4.
#[derive(PartialEq, Eq, Structural, Debug, Copy, Clone)]
pub struct Pll4 {
    pub bfp: u8,
}

impl Default for Pll4 {
    fn default() -> (r: Self)
        ensures
            r.bfp == 0x0,
    {
        Self { bfp: 0x0 }
    }
}

impl Register for Pll4 {
    open spec fn address() -> u8 {
        0x12
    }

    fn id() -> u8 {
        0x12
    }
}

impl ReadableRegister<u8> for Pll4 {

}

impl WritableRegister<u8> for Pll4 {

}

impl From<u8> for Pll4 {
    fn from(bfp: u8) -> (r: Self)
        ensures
            r.bfp == bfp,
    {
        Self { bfp }
    }
}

impl FromSpecImpl<u8> for Pll4 {
    open spec fn obeys_from_spec() -> bool {
        true
    }

    open spec fn from_spec(bfp: u8) -> Self {
        Pll4 { bfp }
    }
}

impl From<Pll4> for u8 {
    fn from(reg: Pll4) -> (r: u8)
        ensures
            r == reg.bfp,
    {
        reg.bfp
    }
}

impl FromSpecImpl<Pll4> for u8 {
    open spec fn obeys_from_spec() -> bool {
        true
    }

    open spec fn from_spec(reg: Pll4) -> u8 {
        reg.bfp
    }
}

/// PLL register 5.
#[derive(PartialEq, Eq, Structural, Debug, Copy, Clone)]
pub struct Pll5 {
    pub bfp: u8,
}

impl Default for Pll5 {
    fn default() -> (r: Self)
        ensures
            r.bfp == 0x0,
    {
        Self { bfp: 0x0 }
    }
}

impl Register for Pll5 {
    open spec fn address() -> u8 {
        0x13
    }

    fn id() -> u8 {
        0x13
    }
}

impl ReadableRegister<u8> for Pll5 {

}

impl WritableRegister<u8> for Pll5 {

}

impl From<u8> for Pll5 {
    fn from(bfp: u8) -> (r: Self)
        ensures
            r.bfp == bfp,
    {
        Self { bfp }
    }
}

impl FromSpecImpl<u8> for Pll5 {
    open spec fn obeys_from_spec() -> bool {
        true
    }

    open spec fn from_spec(bfp: u8) -> Self {
        Pll5 { bfp }
    }
}

impl From<Pll5> for u8 {
    fn from(reg: Pll5) -> (r: u8)
        ensures
            r == reg.bfp,
    {
        reg.bfp
    }
}

impl FromSpecImpl<Pll5> for u8 {
    open spec fn obeys_from_spec() -> bool {
        true
    }

    open spec fn from_spec(reg: Pll5) -> u8 {
        reg.bfp
    }
}

} // verus!
