//! The code registers: framing, error correction and scrambling.

use vstd::prelude::*;
use vstd::std_specs::convert::FromSpecImpl;
use super::{Register, WritableRegister};

verus! {

/// Length of the identity code in bytes.
#[derive(PartialEq, Eq, Structural, Debug, Copy, Clone)]
pub enum IdLength {
    Two,
    Four,
}

/// Length of the preamble in bytes.
#[derive(PartialEq, Eq, Structural, Debug, Copy, Clone)]
pub enum PreambleLength {
    One,
    Two,
    Three,
    Four,
}

impl IdLength {
    /// The one-bit code of the length.
    pub open spec fn code(self) -> u8 {
        match self {
            IdLength::Two => 0,
            IdLength::Four => 1,
        }
    }
}

impl PreambleLength {
    /// The two-bit code of the length: the length less one.
    pub open spec fn code(self) -> u8 {
        match self {
            PreambleLength::One => 0,
            PreambleLength::Two => 1,
            PreambleLength::Three => 2,
            PreambleLength::Four => 3,
        }
    }
}

impl Default for IdLength {
    fn default() -> (r: Self)
        ensures
            r == IdLength::Four,
    {
        IdLength::Four
    }
}

impl Default for PreambleLength {
    fn default() -> (r: Self)
        ensures
            r == PreambleLength::Four,
    {
        PreambleLength::Four
    }
}

/// Code register 1.
#[derive(PartialEq, Eq, Structural, Debug, Copy, Clone)]
pub struct Code1 {
    pub data_whitening_enabled: bool,
    pub fec_enabled: bool,
    pub crc_enabled: bool,
    pub id_length: IdLength,
    pub preable_length: PreambleLength,
}

impl Code1 {
    /// The register value: the preamble length in bits 0 and 1, the identity
    /// length in bit 2, the CRC flag in bit 3, the FEC flag in bit 4, the
    /// whitening flag in bit 5.
    pub open spec fn bits(self) -> u8 {
        (self.preable_length.code() + 4 * self.id_length.code() + (if self.crc_enabled {
            8int
        } else {
            0int
        }) + (if self.fec_enabled {
            16int
        } else {
            0int
        }) + (if self.data_whitening_enabled {
            32int
        } else {
            0int
        })) as u8
    }
}

impl Default for Code1 {
    fn default() -> (r: Self)
        ensures
            r == (Code1 {
                data_whitening_enabled: false,
                fec_enabled: false,
                crc_enabled: false,
                id_length: IdLength::Four,
                preable_length: PreambleLength::Four,
            }),
    {
        Code1 {
            data_whitening_enabled: false,
            fec_enabled: false,
            crc_enabled: false,
            id_length: IdLength::Four,
            preable_length: PreambleLength::Four,
        }
    }
}

impl Register for Code1 {
    open spec fn address() -> u8 {
        0x1F
    }

    fn id() -> u8 {
        0x1F
    }
}

impl WritableRegister<u8> for Code1 {

}

impl From<Code1> for u8 {
    fn from(reg: Code1) -> (r: u8)
        ensures
            r == reg.bits(),
    {
        let whitening: u8 = if reg.data_whitening_enabled {
            0b0010_0000
        } else {
            0
        };
        let fec: u8 = if reg.fec_enabled {
            0b0001_0000
        } else {
            0
        };
        let crc: u8 = if reg.crc_enabled {
            0b0000_1000
        } else {
            0
        };
        let id_length: u8 = if reg.id_length == IdLength::Four {
            0b0000_0100
        } else {
            0
        };
        let preamble: u8 = match reg.preable_length {
            PreambleLength::One => 0,
            PreambleLength::Two => 0b01,
            PreambleLength::Three => 0b10,
            PreambleLength::Four => 0b11,
        };
        assert((whitening == 0 || whitening == 0x20) && (fec == 0 || fec == 0x10) && (crc == 0 || crc
            == 0x08) && (id_length == 0 || id_length == 0x04) && preamble <= 3 ==> (0u8 | whitening
            | fec | crc | id_length | preamble) == whitening + fec + crc + id_length + preamble)
            by (bit_vector);
        0 | whitening | fec | crc | id_length | preamble
    }
}

impl FromSpecImpl<Code1> for u8 {
    open spec fn obeys_from_spec() -> bool {
        true
    }

    open spec fn from_spec(reg: Code1) -> u8 {
        reg.bits()
    }
}

/// Number of wrong bits tolerated in a received identity code.
#[derive(PartialEq, Eq, Structural, Debug, Copy, Clone)]
pub enum IdErrorCodeTolerance {
    Bits0,
    Bits1,
    Bits2,
    Bits3,
}

/// Number of preamble bits that must be seen.
#[derive(PartialEq, Eq, Structural, Debug, Copy, Clone)]
pub enum PreabmelPatternDetectionLength {
    Bits0,
    Bits4,
    Bits8,
    Bits16,
}

impl IdErrorCodeTolerance {
    /// The two-bit code of the tolerance: the number of bits.
    pub open spec fn code(self) -> u8 {
        match self {
            IdErrorCodeTolerance::Bits0 => 0,
            IdErrorCodeTolerance::Bits1 => 1,
            IdErrorCodeTolerance::Bits2 => 2,
            IdErrorCodeTolerance::Bits3 => 3,
        }
    }
}

impl PreabmelPatternDetectionLength {
    /// The two-bit code of the detection length.
    pub open spec fn code(self) -> u8 {
        match self {
            PreabmelPatternDetectionLength::Bits0 => 0,
            PreabmelPatternDetectionLength::Bits4 => 1,
            PreabmelPatternDetectionLength::Bits8 => 2,
            PreabmelPatternDetectionLength::Bits16 => 3,
        }
    }
}

impl Default for IdErrorCodeTolerance {
    fn default() -> (r: Self)
        ensures
            r == IdErrorCodeTolerance::Bits1,
    {
        IdErrorCodeTolerance::Bits1
    }
}

impl Default for PreabmelPatternDetectionLength {
    fn default() -> (r: Self)
        ensures
            r == PreabmelPatternDetectionLength::Bits16,
    {
        PreabmelPatternDetectionLength::Bits16
    }
}

/// Code register 2.
#[derive(PartialEq, Eq, Structural, Debug, Copy, Clone)]
pub struct Code2 {
    pub id_error_code_tolerance: IdErrorCodeTolerance,
    pub preamble_pattern_detection_length: PreabmelPatternDetectionLength,
}

impl Code2 {
    /// The register value: the detection length in bits 0 and 1, the
    /// tolerance in bits 2 and 3.
    pub open spec fn bits(self) -> u8 {
        (self.preamble_pattern_detection_length.code() + 4 * self.id_error_code_tolerance.code())
            as u8
    }
}

impl Default for Code2 {
    fn default() -> (r: Self)
        ensures
            r == (Code2 {
                id_error_code_tolerance: IdErrorCodeTolerance::Bits1,
                preamble_pattern_detection_length: PreabmelPatternDetectionLength::Bits16,
            }),
    {
        Code2 {
            id_error_code_tolerance: IdErrorCodeTolerance::Bits1,
            preamble_pattern_detection_length: PreabmelPatternDetectionLength::Bits16,
        }
    }
}

impl Register for Code2 {
    open spec fn address() -> u8 {
        0x20
    }

    fn id() -> u8 {
        0x20
    }
}

impl WritableRegister<u8> for Code2 {

}

impl From<Code2> for u8 {
    fn from(reg: Code2) -> (r: u8)
        ensures
            r == reg.bits(),
    {
        let tolerance: u8 = match reg.id_error_code_tolerance {
            IdErrorCodeTolerance::Bits0 => 0,
            IdErrorCodeTolerance::Bits1 => 0b0100,
            IdErrorCodeTolerance::Bits2 => 0b1000,
            IdErrorCodeTolerance::Bits3 => 0b1100,
        };
        let detection: u8 = match reg.preamble_pattern_detection_length {
            PreabmelPatternDetectionLength::Bits0 => 0,
            PreabmelPatternDetectionLength::Bits4 => 0b01,
            PreabmelPatternDetectionLength::Bits8 => 0b10,
            PreabmelPatternDetectionLength::Bits16 => 0b11,
        };
        assert((tolerance == 0 || tolerance == 4 || tolerance == 8 || tolerance == 12) && detection
            <= 3 ==> (0u8 | tolerance | detection) == tolerance + detection) by (bit_vector);
        0 | tolerance | detection
    }
}

impl FromSpecImpl<Code2> for u8 {
    open spec fn obeys_from_spec() -> bool {
        true
    }

    open spec fn from_spec(reg: Code2) -> u8 {
        reg.bits()
    }
}

/// Code register 3.
#[derive(PartialEq, Eq, Structural, Debug, Copy, Clone)]
pub struct Code3 {
    pub encryption_key: u8,
}

impl Code3 {
    /// The register value: the low seven bits of the key.
    pub open spec fn bits(self) -> u8 {
        self.encryption_key % 128
    }
}

impl Default for Code3 {
    fn default() -> (r: Self)
        ensures
            r.encryption_key == 0,
    {
        Code3 { encryption_key: 0 }
    }
}

impl WritableRegister<u8> for Code3 {

}

impl Register for Code3 {
    open spec fn address() -> u8 {
        0x21
    }

    fn id() -> u8 {
        0x21
    }
}

impl From<Code3> for u8 {
    fn from(reg: Code3) -> (r: u8)
        ensures
            r == reg.bits(),
    {
        let key = reg.encryption_key;
        assert(key & 0b0111_1111 == key % 128) by (bit_vector);
        key & 0b0111_1111
    }
}

impl FromSpecImpl<Code3> for u8 {
    open spec fn obeys_from_spec() -> bool {
        true
    }

    open spec fn from_spec(reg: Code3) -> u8 {
        reg.bits()
    }
}

} // verus!
