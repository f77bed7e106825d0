//! The receiver registers.

use vstd::prelude::*;
use vstd::std_specs::convert::FromSpecImpl;
use super::{ReadableRegister, Register, WritableRegister};

verus! {

/// Bandwidth of the receive filter.
#[allow(non_camel_case_types)]
#[derive(PartialEq, Eq, Structural, Debug, Copy, Clone)]
pub enum Bandwidth {
    khz250,
    khz500,
}

impl Bandwidth {
    /// The one-bit code of the bandwidth.
    pub open spec fn code(self) -> u8 {
        match self {
            Bandwidth::khz250 => 1,
            Bandwidth::khz500 => 0,
        }
    }
}

/// The RX register.
#[derive(PartialEq, Eq, Structural, Debug, Copy, Clone)]
pub struct Rx {
    pub freq_compensation_enable: bool,
    pub data_invert: bool,
    pub bandwidth: Bandwidth,
    pub lowside_band_select: bool,
}

impl Rx {
    /// The register value: the band select flag in bit 0, the bandwidth in
    /// bit 1, the inversion flag in bit 3, the frequency compensation flag in
    /// bit 4, and bits 5 and 6 set.
    pub open spec fn bits(self) -> u8 {
        (96 + (if self.lowside_band_select {
            1int
        } else {
            0int
        }) + 2 * self.bandwidth.code() + (if self.data_invert {
            8int
        } else {
            0int
        }) + (if self.freq_compensation_enable {
            16int
        } else {
            0int
        })) as u8
    }
}

impl Default for Rx {
    fn default() -> (r: Self)
        ensures
            r == (Rx {
                freq_compensation_enable: false,
                data_invert: false,
                bandwidth: Bandwidth::khz500,
                lowside_band_select: true,
            }),
    {
        Self {
            freq_compensation_enable: false,
            data_invert: false,
            bandwidth: Bandwidth::khz500,
            lowside_band_select: true,
        }
    }
}

impl Register for Rx {
    open spec fn address() -> u8 {
        0x18
    }

    fn id() -> u8 {
        0x18
    }
}

impl WritableRegister<u8> for Rx {

}

impl From<Rx> for u8 {
    fn from(reg: Rx) -> (r: u8)
        ensures
            r == reg.bits(),
    {
        let compensation: u8 = if reg.freq_compensation_enable {
            1
        } else {
            0
        };
        let invert: u8 = if reg.data_invert {
            1
        } else {
            0
        };
        let bandwidth: u8 = match reg.bandwidth {
            Bandwidth::khz250 => 0b1,
            Bandwidth::khz500 => 0b0,
        };
        let lowside: u8 = if reg.lowside_band_select {
            1
        } else {
            0
        };
        assert(compensation <= 1 && invert <= 1 && bandwidth <= 1 && lowside <= 1 ==> (0b0110_0000u8
            | compensation << 4 | invert << 3 | bandwidth << 1 | lowside) == 96 + 16 * compensation
            + 8 * invert + 2 * bandwidth + lowside) by (bit_vector);
        0b0110_0000 | compensation << 4 | invert << 3 | bandwidth << 1 | lowside
    }
}

impl FromSpecImpl<Rx> for u8 {
    open spec fn obeys_from_spec() -> bool {
        true
    }

    open spec fn from_spec(reg: Rx) -> u8 {
        reg.bits()
    }
}

/// Gain of the mixer.
#[allow(non_camel_case_types)]
#[derive(PartialEq, Eq, Structural, Debug, Copy, Clone)]
pub enum MixerGain {
    db24,
    db18,
    db12,
    db6,
}

/// Gain of the low noise amplifier.
#[allow(non_camel_case_types)]
#[derive(PartialEq, Eq, Structural, Debug, Copy, Clone)]
pub enum LnaGain {
    db24,
    db18,
    db12,
    db6,
    db0,
}

impl MixerGain {
    /// The two-bit code of the gain: the steps of 6 dB below 24 dB.
    pub open spec fn code(self) -> u8 {
        match self {
            MixerGain::db24 => 0,
            MixerGain::db18 => 1,
            MixerGain::db12 => 2,
            MixerGain::db6 => 3,
        }
    }

    /// The gain with the given code; only the low two bits count.
    pub open spec fn of_code(code: u8) -> MixerGain {
        if code % 4 == 0 {
            MixerGain::db24
        } else if code % 4 == 1 {
            MixerGain::db18
        } else if code % 4 == 2 {
            MixerGain::db12
        } else {
            MixerGain::db6
        }
    }
}

impl LnaGain {
    /// The three-bit code of the gain: the steps of 6 dB below 24 dB.
    pub open spec fn code(self) -> u8 {
        match self {
            LnaGain::db24 => 0,
            LnaGain::db18 => 1,
            LnaGain::db12 => 2,
            LnaGain::db6 => 3,
            LnaGain::db0 => 4,
        }
    }

    /// The gain with the given code; only the low three bits count, and
    /// every code from 4 on stands for 0 dB.
    pub open spec fn of_code(code: u8) -> LnaGain {
        if code % 8 == 0 {
            LnaGain::db24
        } else if code % 8 == 1 {
            LnaGain::db18
        } else if code % 8 == 2 {
            LnaGain::db12
        } else if code % 8 == 3 {
            LnaGain::db6
        } else {
            LnaGain::db0
        }
    }
}

/// RX gain register 1.
#[derive(PartialEq, Eq, Structural, Debug, Copy, Clone)]
pub struct RxGain1 {
    pub manual_vga_calibration: bool,
    pub mixer_gain: MixerGain,
    pub lna_gain: LnaGain,
}

impl RxGain1 {
    /// The register value: the amplifier gain in bits 0 to 2, the mixer gain
    /// in bits 3 and 4, the manual calibration flag in bit 7.
    pub open spec fn bits(self) -> u8 {
        (self.lna_gain.code() + 8 * self.mixer_gain.code() + (if self.manual_vga_calibration {
            128int
        } else {
            0int
        })) as u8
    }

    /// The reading of a register value.
    pub open spec fn of_bits(val: u8) -> RxGain1 {
        RxGain1 {
            manual_vga_calibration: val >= 128,
            mixer_gain: MixerGain::of_code(val / 8),
            lna_gain: LnaGain::of_code(val),
        }
    }
}

impl Default for RxGain1 {
    fn default() -> (r: Self)
        ensures
            r == (RxGain1 {
                manual_vga_calibration: false,
                mixer_gain: MixerGain::db24,
                lna_gain: LnaGain::db24,
            }),
    {
        Self {
            manual_vga_calibration: false,
            mixer_gain: MixerGain::db24,
            lna_gain: LnaGain::db24,
        }
    }
}

impl Register for RxGain1 {
    open spec fn address() -> u8 {
        0x19
    }

    fn id() -> u8 {
        0x19
    }
}

impl WritableRegister<u8> for RxGain1 {

}

impl ReadableRegister<u8> for RxGain1 {

}

impl From<RxGain1> for u8 {
    fn from(reg: RxGain1) -> (r: u8)
        ensures
            r == reg.bits(),
    {
        let manual: u8 = if reg.manual_vga_calibration {
            1
        } else {
            0
        };
        let mixer: u8 = match reg.mixer_gain {
            MixerGain::db24 => 0b00,
            MixerGain::db18 => 0b01,
            MixerGain::db12 => 0b10,
            MixerGain::db6 => 0b11,
        };
        let lna: u8 = match reg.lna_gain {
            LnaGain::db24 => 0b000,
            LnaGain::db18 => 0b001,
            LnaGain::db12 => 0b010,
            LnaGain::db6 => 0b011,
            LnaGain::db0 => 0b100,
        };
        assert(manual <= 1 && mixer <= 3 && lna <= 4 ==> (manual << 7 | mixer << 3 | lna) == 128
            * manual + 8 * mixer + lna) by (bit_vector);
        manual << 7 | mixer << 3 | lna
    }
}

impl FromSpecImpl<RxGain1> for u8 {
    open spec fn obeys_from_spec() -> bool {
        true
    }

    open spec fn from_spec(reg: RxGain1) -> u8 {
        reg.bits()
    }
}

impl From<u8> for RxGain1 {
    fn from(val: u8) -> (r: Self)
        ensures
            r == RxGain1::of_bits(val),
    {
        let mixer: u8 = (val >> 3) & 0b11;
        let lna: u8 = val & 0b111;
        assert(((val & 0b1000_0000) != 0) == (val >= 128) && (val >> 3) & 0b11 == (val / 8) % 4 && val
            & 0b111 == val % 8) by (bit_vector);
        Self {
            manual_vga_calibration: (val & 0b1000_0000) != 0,
            mixer_gain: if mixer == 0b00 {
                MixerGain::db24
            } else if mixer == 0b01 {
                MixerGain::db18
            } else if mixer == 0b10 {
                MixerGain::db12
            } else {
                MixerGain::db6
            },
            lna_gain: if lna == 0b000 {
                LnaGain::db24
            } else if lna == 0b001 {
                LnaGain::db18
            } else if lna == 0b010 {
                LnaGain::db12
            } else if lna == 0b011 {
                LnaGain::db6
            } else {
                LnaGain::db0
            },
        }
    }
}

impl FromSpecImpl<u8> for RxGain1 {
    open spec fn obeys_from_spec() -> bool {
        true
    }

    open spec fn from_spec(val: u8) -> Self {
        RxGain1::of_bits(val)
    }
}

/// The gains are read back as they were written.
pub proof fn lemma_rx_gain_round_trip(reg: RxGain1)
    ensures
        RxGain1::of_bits(reg.bits()) == reg,
{
}

} // verus!
