//! The transceiver as its user sees it: what to send to set a channel or to
//! start receiving, and the machines that bring the chip up and scan for
//! frames.

use vstd::prelude::*;
use crate::bus::{strobe, strobe_exchange, write_byte, write_exchange, Transaction};
use crate::commands::Strobe;
use crate::ready::{DataReadyWait, DEFAULT_READY_BOUND};
use crate::registers::CHANNEL_REGISTER;
use crate::scanner::{ChannelScanner, Scan, DEFAULT_IDLE_ATTEMPTS, LAST_CHANNEL};
use crate::sequencer::CalibrationSequencer;

verus! {

/// The transceiver. It holds the bounds of the waits and no model of the
/// chip: whoever owns the bus performs what the methods hand out.
#[derive(Clone, Copy, Debug, PartialEq, Eq, Structural)]
pub struct A7105 {
    /// Polls allowed to each wait for an auto-clearing bit.
    pub auto_clear_bound: u32,
    /// Samples beyond the first that each phase of the wait for the
    /// data-ready signal may take.
    pub ready_bound: u32,
}

impl A7105 {
    /// A transceiver whose waits for an auto-clearing bit give up after
    /// `auto_clear_bound` polls, and whose waits for the data-ready signal
    /// have the default bound.
    pub fn new(auto_clear_bound: u32) -> (radio: Self)
        ensures
            radio.auto_clear_bound == auto_clear_bound,
            radio.ready_bound == DEFAULT_READY_BOUND,
    {
        A7105 { auto_clear_bound, ready_bound: DEFAULT_READY_BOUND }
    }

    /// Starts the bring-up: reset, register programming and calibration.
    pub fn init(&self) -> (sequencer: CalibrationSequencer)
        ensures
            sequencer == CalibrationSequencer::start(self.auto_clear_bound),
    {
        CalibrationSequencer::new(self.auto_clear_bound)
    }

    /// The write that selects channel `chn`.
    pub fn set_channel(&self, chn: u8) -> (t: Transaction)
        ensures
            t@ == write_exchange(CHANNEL_REGISTER, seq![chn]),
    {
        write_byte(CHANNEL_REGISTER, chn)
    }

    /// What puts the chip into receive mode on channel 0: the channel, a
    /// strobe to standby, the channel once more, and a strobe to receive.
    pub fn test_read_start(&self) -> (script: Vec<Transaction>)
        ensures
            script@.len() == 4,
            script@[0]@ == write_exchange(CHANNEL_REGISTER, seq![0u8]),
            script@[1]@ == strobe_exchange(Strobe::Standby),
            script@[2]@ == write_exchange(CHANNEL_REGISTER, seq![0u8]),
            script@[3]@ == strobe_exchange(Strobe::Rx),
    {
        let mut script: Vec<Transaction> = Vec::new();
        script.push(self.set_channel(0));
        script.push(strobe(Strobe::Standby));
        script.push(self.set_channel(0));
        script.push(strobe(Strobe::Rx));
        script
    }

    /// Starts a wait for the data-ready signal.
    pub fn wait_gpio(&self) -> (wait: DataReadyWait)
        ensures
            wait == DataReadyWait::start(self.ready_bound),
    {
        DataReadyWait::new(self.ready_bound)
    }

    /// Starts a scan of every channel from 0 to [`LAST_CHANNEL`], with the
    /// default number of attempts on each.
    pub fn test_read(&self) -> (scanner: ChannelScanner)
        ensures
            scanner@ == Scan::start(
                Seq::new(LAST_CHANNEL as nat + 1, |c: int| c as u8),
                DEFAULT_IDLE_ATTEMPTS,
                self.ready_bound,
            ),
            scanner@.wf(),
    {
        ChannelScanner::sweep(DEFAULT_IDLE_ATTEMPTS, self.ready_bound)
    }
}

} // verus!
