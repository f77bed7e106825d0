//! The data rate register.

use vstd::prelude::*;
use vstd::std_specs::convert::FromSpecImpl;
use super::{ReadableRegister, Register, WritableRegister};

verus! {

/// The divider that sets the data rate.
#[derive(PartialEq, Eq, Structural, Debug, Copy, Clone)]
pub struct DataRate {
    pub rate: u8,
}

impl Default for DataRate {
    fn default() -> (r: Self)
        ensures
            r.rate == 0,
    {
        DataRate { rate: 0 }
    }
}

impl Register for DataRate {
    open spec fn address() -> u8 {
        0x0E
    }

    fn id() -> u8 {
        0x0E
    }
}

impl ReadableRegister<u8> for DataRate {

}

impl WritableRegister<u8> for DataRate {

}

impl From<u8> for DataRate {
    fn from(rate: u8) -> (r: Self)
        ensures
            r.rate == rate,
    {
        Self { rate }
    }
}

impl FromSpecImpl<u8> for DataRate {
    open spec fn obeys_from_spec() -> bool {
        true
    }

    open spec fn from_spec(rate: u8) -> Self {
        DataRate { rate }
    }
}

impl From<DataRate> for u8 {
    fn from(reg: DataRate) -> (r: u8)
        ensures
            r == reg.rate,
    {
        reg.rate
    }
}

impl FromSpecImpl<DataRate> for u8 {
    open spec fn obeys_from_spec() -> bool {
        true
    }

    open spec fn from_spec(reg: DataRate) -> u8 {
        reg.rate
    }
}

} // verus!
