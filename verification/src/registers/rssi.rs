//! The RSSI threshold register.

use vstd::prelude::*;
use vstd::std_specs::convert::FromSpecImpl;
use super::{Register, WritableRegister};

verus! {

/// The signal strength above which a carrier counts as detected.
#[derive(PartialEq, Eq, Structural, Debug, Copy, Clone)]
pub struct RssiCarrierDetectThreshold {
    pub threshold: u8,
}

impl Default for RssiCarrierDetectThreshold {
    fn default() -> (r: Self)
        ensures
            r.threshold == 0x91,
    {
        Self { threshold: 0b1001_0001 }
    }
}

impl Register for RssiCarrierDetectThreshold {
    open spec fn address() -> u8 {
        0x1D
    }

    fn id() -> u8 {
        0x1D
    }
}

impl WritableRegister<u8> for RssiCarrierDetectThreshold {

}

impl From<RssiCarrierDetectThreshold> for u8 {
    fn from(reg: RssiCarrierDetectThreshold) -> (r: u8)
        ensures
            r == reg.threshold,
    {
        reg.threshold
    }
}

impl FromSpecImpl<RssiCarrierDetectThreshold> for u8 {
    open spec fn obeys_from_spec() -> bool {
        true
    }

    open spec fn from_spec(reg: RssiCarrierDetectThreshold) -> u8 {
        reg.threshold
    }
}

} // verus!
