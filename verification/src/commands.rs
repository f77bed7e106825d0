//! Commands understood by the transceiver.

use vstd::prelude::*;
use vstd::std_specs::convert::FromSpecImpl;

verus! {

/// A single-byte command that switches the operating mode of the chip or
/// resets one of its FIFO pointers.
#[derive(Clone, Copy, Debug, PartialEq, Eq, Structural)]
pub enum Strobe {
    /// Set the A7105 into sleep mode
    Sleep,
    /// Set the A7105 into Idle mode
    Idle,
    /// Set the A7105 into Standby mode
    Standby,
    /// Set the A7105 into PLL mode
    Pll,
    /// Set the A7105 into RX mode
    Rx,
    /// Set the A7105 into TX mode
    Tx,
    /// Reset A7105 FIFO write pointer.
    FifoWritePointerReset,
    /// Reset A7105 FIFO read pointer.
    FifoReadPointerReset,
}

/// Everything that can be commanded without addressing a register.
#[derive(Clone, Copy, Debug, PartialEq, Eq, Structural)]
pub enum Commands {
    /// A Strobe specific command for the A7105
    Strobe(Strobe),
    /// A software reset of the A7105
    Reset,
}

impl Strobe {
    /// The opcode that goes on the wire for this strobe.
    pub open spec fn opcode(self) -> u8 {
        match self {
            Strobe::Sleep => 0x80u8,
            Strobe::Idle => 0x90u8,
            Strobe::Standby => 0xA0u8,
            Strobe::Pll => 0xB0u8,
            Strobe::Rx => 0xC0u8,
            Strobe::Tx => 0xD0u8,
            Strobe::FifoWritePointerReset => 0xE0u8,
            Strobe::FifoReadPointerReset => 0xF0u8,
        }
    }

    /// The position of the strobe in the opcode table, 0 to 7.
    pub open spec fn index(self) -> int {
        match self {
            Strobe::Sleep => 0,
            Strobe::Idle => 1,
            Strobe::Standby => 2,
            Strobe::Pll => 3,
            Strobe::Rx => 4,
            Strobe::Tx => 5,
            Strobe::FifoWritePointerReset => 6,
            Strobe::FifoReadPointerReset => 7,
        }
    }
}

impl From<Strobe> for u8 {
    fn from(cmd: Strobe) -> (byte: u8)
        ensures
            byte == cmd.opcode(),
    {
        match cmd {
            Strobe::Sleep => 0b1000_0000,
            Strobe::Idle => 0b1001_0000,
            Strobe::Standby => 0b1010_0000,
            Strobe::Pll => 0b1011_0000,
            Strobe::Rx => 0b1100_0000,
            Strobe::Tx => 0b1101_0000,
            Strobe::FifoWritePointerReset => 0b1110_0000,
            Strobe::FifoReadPointerReset => 0b1111_0000,
        }
    }
}

impl FromSpecImpl<Strobe> for u8 {
    open spec fn obeys_from_spec() -> bool {
        true
    }

    open spec fn from_spec(cmd: Strobe) -> u8 {
        cmd.opcode()
    }
}

/// Every strobe opcode has bit 7 set and an empty low nibble, and sits at
/// `0x80 + 0x10 * index` in the opcode table.
pub proof fn lemma_opcode_shape(cmd: Strobe)
    ensures
        cmd.opcode() & 0x80 == 0x80,
        cmd.opcode() & 0x0F == 0,
        cmd.opcode() == 0x80 + 0x10 * cmd.index(),
{
    let b = cmd.opcode();
    assert(b == 0x80 || b == 0x90 || b == 0xA0 || b == 0xB0 || b == 0xC0 || b == 0xD0 || b == 0xE0
        || b == 0xF0);
    assert((b == 0x80 || b == 0x90 || b == 0xA0 || b == 0xB0 || b == 0xC0 || b == 0xD0 || b == 0xE0
        || b == 0xF0) ==> (b & 0x80 == 0x80 && b & 0x0F == 0)) by (bit_vector);
}

/// Two strobes with the same opcode are the same strobe.
pub proof fn lemma_opcode_injective(a: Strobe, b: Strobe)
    requires
        a.opcode() == b.opcode(),
    ensures
        a == b,
{
}


} // verus!
