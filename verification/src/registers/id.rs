//! The identity code register.

use vstd::prelude::*;
use vstd::std_specs::convert::FromSpecImpl;
use super::{ReadableRegister, Register, WritableRegister};
use crate::bus::{write_exchange, Transaction};

verus! {

/// The 32-bit identity code that a frame must carry to be received.
#[derive(PartialEq, Eq, Structural, Debug, Copy, Clone)]
pub struct IdData {
    pub id: u32,
}

impl Default for IdData {
    fn default() -> (r: Self)
        ensures
            r.id == 0,
    {
        Self { id: 0 }
    }
}

impl Register for IdData {
    open spec fn address() -> u8 {
        0x06
    }

    fn id() -> u8 {
        0x06
    }
}

impl ReadableRegister<u32> for IdData {

}

impl WritableRegister<u32> for IdData {

}

impl From<u32> for IdData {
    fn from(id: u32) -> (r: Self)
        ensures
            r.id == id,
    {
        Self { id }
    }
}

impl FromSpecImpl<u32> for IdData {
    open spec fn obeys_from_spec() -> bool {
        true
    }

    open spec fn from_spec(id: u32) -> Self {
        IdData { id }
    }
}

impl From<IdData> for u32 {
    fn from(reg: IdData) -> (r: u32)
        ensures
            r == reg.id,
    {
        reg.id
    }
}

impl FromSpecImpl<IdData> for u32 {
    open spec fn obeys_from_spec() -> bool {
        true
    }

    open spec fn from_spec(reg: IdData) -> u32 {
        reg.id
    }
}

impl IdData {
    /// The identity code as it travels over the bus: four bytes, most
    /// significant byte first.
    pub open spec fn wire_bytes(self) -> Seq<u8> {
        seq![
            (self.id / 0x100_0000) as u8,
            ((self.id / 0x1_0000) % 256) as u8,
            ((self.id / 0x100) % 256) as u8,
            (self.id % 256) as u8,
        ]
    }

    /// The identity code that four bytes from the bus stand for.
    pub open spec fn of_wire_bytes(bytes: Seq<u8>) -> IdData
        recommends
            bytes.len() == 4,
    {
        IdData {
            id: (bytes[0] * 0x100_0000 + bytes[1] * 0x1_0000 + bytes[2] * 0x100 + bytes[3]) as u32,
        }
    }

    /// The four bytes of the identity code, most significant byte first.
    pub fn to_bytes(self) -> (bytes: [u8; 4])
        ensures
            bytes@ == self.wire_bytes(),
    {
        let bytes: [u8; 4] = [
            (self.id / 0x100_0000) as u8,
            ((self.id / 0x1_0000) % 256) as u8,
            ((self.id / 0x100) % 256) as u8,
            (self.id % 256) as u8,
        ];
        assert(bytes@ =~= self.wire_bytes());
        bytes
    }

    /// The write that puts the identity code into its register.
    pub fn write(self) -> (t: Transaction)
        ensures
            t@ == write_exchange(Self::address(), self.wire_bytes()),
    {
        let bytes = self.to_bytes();
        crate::bus::write(Self::id(), bytes.as_slice())
    }

    /// The identity code that a reply of four bytes holds. A reply of
    /// another length is no reading of the identity register.
    pub fn from_reply(reply: &[u8]) -> (reg: Option<IdData>)
        ensures
            reg is Some <==> reply@.len() == 4,
            reg matches Some(data) ==> data == IdData::of_wire_bytes(reply@),
    {
        if reply.len() == 4 {
            let id: u32 = (reply[0] as u32) * 0x100_0000 + (reply[1] as u32) * 0x1_0000 + (
            reply[2] as u32) * 0x100 + (reply[3] as u32);
            Some(IdData { id })
        } else {
            None
        }
    }
}

/// The identity code is read back from its four bytes as it was written.
pub proof fn lemma_id_round_trip(reg: IdData)
    ensures
        reg.wire_bytes().len() == 4,
        IdData::of_wire_bytes(reg.wire_bytes()) == reg,
{
}

} // verus!
