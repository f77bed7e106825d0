//! Bring-up of the chip: reset, register programming, and the calibrations
//! that the chip runs one at a time.
//!
//! The sequencer is strictly sequential. Each calibration is started by
//! setting an enable bit and is over when the chip has cleared that bit, so
//! every stage that waits polls a bounded number of times. A calibration that
//! fails or times out is written into the report and the bring-up goes on;
//! only a failure of the transport ends it early.

use vstd::prelude::*;
use crate::bus::{
    lemma_address_in_range, read, read_exchange, strobe, strobe_exchange, wait_auto_clear,
    write_byte, write_exchange,
};
use crate::backend::Call;
use crate::bus::{AutoClearWait, WaitStatus};
use crate::commands::Strobe;
use crate::registers::{
    AdcCaptureMode, AdcClockSpeed, AdcControl, CalibrationControl, Code1, Gpio1PinControl,
    GpioPinFunction, IdData, IdLength, LnaGain, MixerGain, Pll1, Pll2, Pll3, Pll4, Pll5,
    PreambleLength, Register,
    RssiMargin, RxGain1, Tx1, Tx2, VcoCurrentCalibration, VcoSingleBandCalibration1,
    VcoSingleBandCalibration1Result, CHANNEL_REGISTER,
};
use crate::report::{
    BandOutcome, CalibrationReport, CalibrationResult, FilterOutcome, InitError, Reference,
    VCO_BAND_FAILED,
};
use crate::step::{answers, fits, Action, Event, Outcome, Request};

verus! {

/// Time given to the chip after power is applied, in microseconds.
pub const POWER_UP_MICROS: u32 = 25_000;

/// Time given to the chip to come out of reset, in microseconds.
pub const RESET_SETTLE_MICROS: u32 = 50_000;

/// Number of single-byte registers programmed before calibration.
pub const PROGRAM_LEN: usize = 43;

/// The initial value of each single-byte register, as address and value, in
/// the order in which they are written.
pub const PROGRAM: [(u8, u8); 43] = [
    (0x0B, 0x19),  // GPIO1 pin control: serial data out
    (0x01, 0x42),  // mode control
    (0x02, 0x00),  // calibration control
    (0x03, 0x25),  // FIFO 1
    (0x04, 0x00),  // FIFO 2
    (0x07, 0x00),  // RC oscillator 1
    (0x08, 0x00),  // RC oscillator 2
    (0x09, 0x00),  // RC oscillator 3
    (0x0C, 0x01),  // GPIO2 pin control
    (0x0D, 0x05),  // clock
    (0x0E, 0x00),  // data rate
    (0x0F, 0x50),  // PLL 1
    (0x10, 0x9E),  // PLL 2
    (0x11, 0x4B),  // PLL 3
    (0x12, 0x00),  // PLL 4
    (0x13, 0x02),  // PLL 5
    (0x14, 0x16),  // TX 1
    (0x15, 0x2B),  // TX 2
    (0x16, 0x12),  // delay 1
    (0x17, 0x00),  // delay 2
    (0x18, 0x62),  // RX
    (0x19, 0x80),  // RX gain 1
    (0x1C, 0x2A),  // RX gain 4
    (0x1D, 0x32),  // RSSI threshold
    (0x1E, 0xC3),  // ADC control
    (0x1F, 0x1F),  // code 1
    (0x20, 0x13),  // code 2
    (0x21, 0xC3),  // code 3
    (0x22, 0x00),  // IF calibration 1
    (0x24, 0x00),  // VCO current calibration
    (0x25, 0x00),  // VCO single band calibration 1
    (0x26, 0x3B),  // VCO single band calibration 2
    (0x27, 0x00),  // battery detect
    (0x28, 0x17),  // TX test
    (0x29, 0x47),  // RX DEM test 1
    (0x2A, 0x80),  // RX DEM test 2
    (0x2B, 0x03),  // charge pump current
    (0x2C, 0x01),  // crystal test
    (0x2D, 0x45),  // PLL test
    (0x2E, 0x18),  // VCO test 1
    (0x2F, 0x00),  // VCO test 2
    (0x30, 0x01),  // IFAT
    (0x31, 0x0F),  // RScale
];

/// Address of the identity register, written last.
pub const ID_REGISTER: u8 = 0x06;

/// The identity code of the AFHDS 2A link, most significant byte first.
pub const RADIO_ID: [u8; 4] = [0x54, 0x75, 0xC5, 0x2A];

/// Address of the calibration control register.
pub const CALIBRATION_CONTROL: u8 = 0x02;

/// Enable bit of the IF filter bank calibration.
pub const IF_FILTER_BANK: u8 = 0x01;

/// Enable bit of the VCO band calibration.
pub const VCO_BANK: u8 = 0x02;

/// Address of the VCO current calibration register.
pub const VCO_CURRENT: u8 = 0x24;

/// The VCO current setting that the datasheet recommends.
pub const VCO_CURRENT_RECOMMENDED: u8 = 0x13;

/// Address of the first VCO band calibration register: written to set the
/// band by hand, read for the result of a calibration.
pub const VCO_BAND_1: u8 = 0x25;

/// Address of the second VCO band calibration register.
pub const VCO_BAND_2: u8 = 0x26;

/// The tuning voltage thresholds used for the VCO band calibration.
pub const VCO_BAND_THRESHOLDS: u8 = 0x3B;

/// The value that ends the VCO band calibration.
pub const VCO_BAND_RELEASE: u8 = 0x08;

/// Where the bring-up stands: the step that is to be performed next.
#[derive(Clone, Copy, Debug, PartialEq, Eq, Structural)]
pub enum Stage {
    /// Wait for the supply to settle.
    PowerUp,
    /// Reset the chip.
    Reset,
    /// Wait for the chip to come out of reset.
    ResetSettle,
    /// Write the entry of [`PROGRAM`] with this index.
    Program(usize),
    /// Write the identity code.
    Identity,
    /// Enter standby.
    Standby,
    /// Start the IF filter bank calibration.
    FilterStart,
    /// Poll for the end of the IF filter bank calibration.
    FilterWait(AutoClearWait),
    /// Write the recommended VCO current.
    VcoCurrent,
    /// Write the thresholds for the VCO band calibration.
    VcoThresholds,
    /// Select a reference channel.
    BandChannel(Reference),
    /// Start the VCO band calibration at the selected channel.
    BandStart(Reference),
    /// Poll for the end of the VCO band calibration.
    BandWait(Reference, AutoClearWait),
    /// Read the result of the VCO band calibration.
    BandResult(Reference),
    /// End the VCO band calibration.
    BandRelease,
    /// Return to standby.
    FinalStandby,
    /// Read back the channel register.
    ReadBack,
    /// The bring-up is complete.
    Done,
    /// The bring-up was given up.
    Failed,
}

/// The bring-up state machine.
#[derive(Clone, Copy, Debug, PartialEq, Eq)]
pub struct CalibrationSequencer {
    /// The step that is to be performed next.
    pub stage: Stage,
    /// Polls allowed to each wait for an auto-clearing bit.
    pub bound: u32,
    /// What has been found so far.
    pub report: CalibrationReport,
}

/// The stage that follows the VCO band calibration at `reference`.
pub open spec fn stage_after_band(reference: Reference) -> Stage {
    match reference {
        Reference::Low => Stage::BandChannel(Reference::High),
        Reference::High => Stage::BandRelease,
    }
}

impl CalibrationSequencer {
    /// The sequencer before its first step.
    pub open spec fn start(bound: u32) -> CalibrationSequencer {
        CalibrationSequencer { stage: Stage::PowerUp, bound, report: CalibrationReport::blank() }
    }

    /// Whether the bring-up has come to an end, well or not.
    pub open spec fn finished(self) -> bool {
        self.stage == Stage::Done || self.stage == Stage::Failed
    }

    /// The action that the current stage asks for.
    pub open spec fn next_action(self) -> Request {
        match self.stage {
            Stage::PowerUp => Request::Pause(POWER_UP_MICROS),
            Stage::Reset => Request::Transfer(write_exchange(0x00, seq![0x00u8])),
            Stage::ResetSettle => Request::Pause(RESET_SETTLE_MICROS),
            Stage::Program(i) => if i < PROGRAM_LEN {
                Request::Transfer(write_exchange(PROGRAM@[i as int].0, seq![PROGRAM@[i as int].1]))
            } else {
                Request::Halt
            },
            Stage::Identity => Request::Transfer(write_exchange(ID_REGISTER, RADIO_ID@)),
            Stage::Standby => Request::Transfer(strobe_exchange(Strobe::Standby)),
            Stage::FilterStart => Request::Transfer(
                write_exchange(CALIBRATION_CONTROL, seq![IF_FILTER_BANK]),
            ),
            Stage::FilterWait(wait) => Request::Transfer(read_exchange(wait.addr, 1)),
            Stage::VcoCurrent => Request::Transfer(
                write_exchange(VCO_CURRENT, seq![VCO_CURRENT_RECOMMENDED]),
            ),
            Stage::VcoThresholds => Request::Transfer(
                write_exchange(VCO_BAND_2, seq![VCO_BAND_THRESHOLDS]),
            ),
            Stage::BandChannel(reference) => Request::Transfer(
                write_exchange(CHANNEL_REGISTER, seq![reference.channel_of()]),
            ),
            Stage::BandStart(_) => Request::Transfer(
                write_exchange(CALIBRATION_CONTROL, seq![VCO_BANK]),
            ),
            Stage::BandWait(_, wait) => Request::Transfer(read_exchange(wait.addr, 1)),
            Stage::BandResult(_) => Request::Transfer(read_exchange(VCO_BAND_1, 1)),
            Stage::BandRelease => Request::Transfer(
                write_exchange(VCO_BAND_1, seq![VCO_BAND_RELEASE]),
            ),
            Stage::FinalStandby => Request::Transfer(strobe_exchange(Strobe::Standby)),
            Stage::ReadBack => Request::Transfer(read_exchange(CHANNEL_REGISTER, 1)),
            Stage::Done => Request::Halt,
            Stage::Failed => Request::Halt,
        }
    }

    /// The sequencer after a proper result of its action. `reply` is what was
    /// read; an action that reads nothing leaves it unused.
    pub open spec fn proceed(self, reply: Seq<u8>) -> CalibrationSequencer {
        match self.stage {
            Stage::PowerUp => CalibrationSequencer { stage: Stage::Reset, ..self },
            Stage::Reset => CalibrationSequencer { stage: Stage::ResetSettle, ..self },
            Stage::ResetSettle => CalibrationSequencer { stage: Stage::Program(0), ..self },
            Stage::Program(i) => if i + 1 < PROGRAM_LEN {
                CalibrationSequencer { stage: Stage::Program((i + 1) as usize), ..self }
            } else {
                CalibrationSequencer { stage: Stage::Identity, ..self }
            },
            Stage::Identity => CalibrationSequencer { stage: Stage::Standby, ..self },
            Stage::Standby => CalibrationSequencer { stage: Stage::FilterStart, ..self },
            Stage::FilterStart => CalibrationSequencer {
                stage: Stage::FilterWait(
                    AutoClearWait::start(CALIBRATION_CONTROL, IF_FILTER_BANK, self.bound),
                ),
                ..self
            },
            Stage::FilterWait(wait) => {
                let polled = wait.after(reply[0]);
                match polled.status {
                    WaitStatus::Pending => CalibrationSequencer {
                        stage: Stage::FilterWait(polled),
                        ..self
                    },
                    WaitStatus::Cleared => CalibrationSequencer {
                        stage: Stage::VcoCurrent,
                        report: CalibrationReport {
                            if_filter: FilterOutcome::Completed,
                            ..self.report
                        },
                        ..self
                    },
                    WaitStatus::TimedOut => CalibrationSequencer {
                        stage: Stage::VcoCurrent,
                        report: CalibrationReport {
                            if_filter: FilterOutcome::TimedOut,
                            ..self.report
                        },
                        ..self
                    },
                }
            },
            Stage::VcoCurrent => CalibrationSequencer { stage: Stage::VcoThresholds, ..self },
            Stage::VcoThresholds => CalibrationSequencer {
                stage: Stage::BandChannel(Reference::Low),
                ..self
            },
            Stage::BandChannel(reference) => CalibrationSequencer {
                stage: Stage::BandStart(reference),
                ..self
            },
            Stage::BandStart(reference) => CalibrationSequencer {
                stage: Stage::BandWait(
                    reference,
                    AutoClearWait::start(CALIBRATION_CONTROL, VCO_BANK, self.bound),
                ),
                ..self
            },
            Stage::BandWait(reference, wait) => {
                let polled = wait.after(reply[0]);
                match polled.status {
                    WaitStatus::Pending => CalibrationSequencer {
                        stage: Stage::BandWait(reference, polled),
                        ..self
                    },
                    WaitStatus::Cleared => CalibrationSequencer {
                        stage: Stage::BandResult(reference),
                        ..self
                    },
                    WaitStatus::TimedOut => CalibrationSequencer {
                        stage: stage_after_band(reference),
                        report: self.report.with_band(reference, BandOutcome::TimedOut),
                        ..self
                    },
                }
            },
            Stage::BandResult(reference) => CalibrationSequencer {
                stage: stage_after_band(reference),
                report: self.report.with_band(
                    reference,
                    BandOutcome::Measured(CalibrationResult::of_band(reply[0])),
                ),
                ..self
            },
            Stage::BandRelease => CalibrationSequencer { stage: Stage::FinalStandby, ..self },
            Stage::FinalStandby => CalibrationSequencer { stage: Stage::ReadBack, ..self },
            Stage::ReadBack => CalibrationSequencer {
                stage: Stage::Done,
                report: CalibrationReport { channel_read_back: Some(reply[0]), ..self.report },
                ..self
            },
            Stage::Done => self,
            Stage::Failed => self,
        }
    }

    /// The sequencer after `outcome` has been reported for its action. A
    /// sequencer that has finished stays as it is. Anything that is not a
    /// proper result of the action, a fault above all, ends the bring-up.
    pub open spec fn after(self, outcome: Outcome) -> CalibrationSequencer {
        if self.finished() {
            self
        } else if !answers(outcome, self.next_action()) {
            CalibrationSequencer { stage: Stage::Failed, ..self }
        } else {
            match outcome {
                Outcome::Transferred(reply) => self.proceed(reply),
                _ => self.proceed(seq![]),
            }
        }
    }

    /// The sequencer after the outcomes `outcomes` have been reported, in
    /// order.
    pub open spec fn after_all(self, outcomes: Seq<Outcome>) -> CalibrationSequencer
        decreases outcomes.len(),
    {
        if outcomes.len() == 0 {
            self
        } else {
            self.after(outcomes[0]).after_all(outcomes.drop_first())
        }
    }

    /// What the bring-up came to: nothing while it runs, the report once it
    /// is done, the error where it was given up.
    pub open spec fn outcome_of(self) -> Option<Result<CalibrationReport, InitError>> {
        match self.stage {
            Stage::Done => Some(Ok(self.report)),
            Stage::Failed => Some(Err(InitError::Bus)),
            _ => None,
        }
    }

    /// A sequencer at the start of the bring-up. Each wait for an
    /// auto-clearing bit gives up after `bound` polls.
    pub fn new(bound: u32) -> (s: Self)
        ensures
            s == Self::start(bound),
    {
        CalibrationSequencer {
            stage: Stage::PowerUp,
            bound,
            report: CalibrationReport {
                if_filter: FilterOutcome::NotRun,
                band_low: BandOutcome::NotRun,
                band_high: BandOutcome::NotRun,
                channel_read_back: None,
            },
        }
    }

    /// Whether the bring-up has come to an end, well or not.
    pub fn is_finished(&self) -> (done: bool)
        ensures
            done == self.finished(),
    {
        match self.stage {
            Stage::Done => true,
            Stage::Failed => true,
            _ => false,
        }
    }

    /// The action to perform next. A finished sequencer asks for nothing.
    pub fn action(&self) -> (a: Action)
        ensures
            a@ == self.next_action(),
    {
        match self.stage {
            Stage::PowerUp => Action::Pause(POWER_UP_MICROS),
            Stage::Reset => Action::Transfer(write_byte(0x00, 0x00)),
            Stage::ResetSettle => Action::Pause(RESET_SETTLE_MICROS),
            Stage::Program(i) => {
                if i < PROGRAM_LEN {
                    let entry = PROGRAM[i];
                    Action::Transfer(write_byte(entry.0, entry.1))
                } else {
                    Action::Halt
                }
            },
            Stage::Identity => Action::Transfer(crate::bus::write(ID_REGISTER, RADIO_ID.as_slice())),
            Stage::Standby => Action::Transfer(strobe(Strobe::Standby)),
            Stage::FilterStart => Action::Transfer(write_byte(CALIBRATION_CONTROL, IF_FILTER_BANK)),
            Stage::FilterWait(wait) => Action::Transfer(wait.poll()),
            Stage::VcoCurrent => Action::Transfer(write_byte(VCO_CURRENT, VCO_CURRENT_RECOMMENDED)),
            Stage::VcoThresholds => Action::Transfer(write_byte(VCO_BAND_2, VCO_BAND_THRESHOLDS)),
            Stage::BandChannel(reference) => Action::Transfer(
                write_byte(CHANNEL_REGISTER, reference.channel()),
            ),
            Stage::BandStart(_) => Action::Transfer(write_byte(CALIBRATION_CONTROL, VCO_BANK)),
            Stage::BandWait(_, wait) => Action::Transfer(wait.poll()),
            Stage::BandResult(_) => Action::Transfer(read(VCO_BAND_1, 1)),
            Stage::BandRelease => Action::Transfer(write_byte(VCO_BAND_1, VCO_BAND_RELEASE)),
            Stage::FinalStandby => Action::Transfer(strobe(Strobe::Standby)),
            Stage::ReadBack => Action::Transfer(read(CHANNEL_REGISTER, 1)),
            Stage::Done => Action::Halt,
            Stage::Failed => Action::Halt,
        }
    }

    /// Takes the result of the action that [`action`](Self::action) named
    /// and moves to the next stage.
    pub fn advance(&mut self, event: &Event)
        ensures
            *final(self) == old(self).after(event@),
    {
        if self.is_finished() {
            return ;
        }
        let action = self.action();
        if !fits(event, &action) {
            self.stage = Stage::Failed;
            return ;
        }
        let value: u8 = match event {
            Event::Transferred(bytes) => if bytes.len() > 0 {
                bytes[0]
            } else {
                0
            },
            _ => 0,
        };
        match self.stage {
            Stage::PowerUp => {
                self.stage = Stage::Reset;
            },
            Stage::Reset => {
                self.stage = Stage::ResetSettle;
            },
            Stage::ResetSettle => {
                self.stage = Stage::Program(0);
            },
            Stage::Program(i) => {
                if i + 1 < PROGRAM_LEN {
                    self.stage = Stage::Program(i + 1);
                } else {
                    self.stage = Stage::Identity;
                }
            },
            Stage::Identity => {
                self.stage = Stage::Standby;
            },
            Stage::Standby => {
                self.stage = Stage::FilterStart;
            },
            Stage::FilterStart => {
                self.stage = Stage::FilterWait(
                    wait_auto_clear(CALIBRATION_CONTROL, IF_FILTER_BANK, self.bound),
                );
            },
            Stage::FilterWait(wait) => {
                let mut polled = wait;
                match polled.observe(value) {
                    WaitStatus::Pending => {
                        self.stage = Stage::FilterWait(polled);
                    },
                    WaitStatus::Cleared => {
                        self.stage = Stage::VcoCurrent;
                        self.report.if_filter = FilterOutcome::Completed;
                    },
                    WaitStatus::TimedOut => {
                        self.stage = Stage::VcoCurrent;
                        self.report.if_filter = FilterOutcome::TimedOut;
                    },
                }
            },
            Stage::VcoCurrent => {
                self.stage = Stage::VcoThresholds;
            },
            Stage::VcoThresholds => {
                self.stage = Stage::BandChannel(Reference::Low);
            },
            Stage::BandChannel(reference) => {
                self.stage = Stage::BandStart(reference);
            },
            Stage::BandStart(reference) => {
                self.stage = Stage::BandWait(
                    reference,
                    wait_auto_clear(CALIBRATION_CONTROL, VCO_BANK, self.bound),
                );
            },
            Stage::BandWait(reference, wait) => {
                let mut polled = wait;
                match polled.observe(value) {
                    WaitStatus::Pending => {
                        self.stage = Stage::BandWait(reference, polled);
                    },
                    WaitStatus::Cleared => {
                        self.stage = Stage::BandResult(reference);
                    },
                    WaitStatus::TimedOut => {
                        self.record_band(reference, BandOutcome::TimedOut);
                    },
                }
            },
            Stage::BandResult(reference) => {
                self.record_band(
                    reference,
                    BandOutcome::Measured(CalibrationResult::from_band(value)),
                );
            },
            Stage::BandRelease => {
                self.stage = Stage::FinalStandby;
            },
            Stage::FinalStandby => {
                self.stage = Stage::ReadBack;
            },
            Stage::ReadBack => {
                self.stage = Stage::Done;
                self.report.channel_read_back = Some(value);
            },
            Stage::Done => {},
            Stage::Failed => {},
        }
    }

    /// Writes down how the VCO band calibration at `reference` went and
    /// moves on to what follows it.
    fn record_band(&mut self, reference: Reference, outcome: BandOutcome)
        ensures
            final(self).stage == stage_after_band(reference),
            final(self).report == old(self).report.with_band(reference, outcome),
            final(self).bound == old(self).bound,
    {
        match reference {
            Reference::Low => {
                self.report.band_low = outcome;
                self.stage = Stage::BandChannel(Reference::High);
            },
            Reference::High => {
                self.report.band_high = outcome;
                self.stage = Stage::BandRelease;
            },
        }
    }

    /// What the bring-up came to: `None` while it runs, the report once it
    /// is done, the error where it was given up.
    pub fn outcome(&self) -> (r: Option<Result<CalibrationReport, InitError>>)
        ensures
            r == self.outcome_of(),
    {
        match self.stage {
            Stage::Done => Some(Ok(self.report)),
            Stage::Failed => Some(Err(InitError::Bus)),
            _ => None,
        }
    }
}

/// The groups of registers whose order of programming is prescribed.
#[derive(Clone, Copy, Debug, PartialEq, Eq, Structural)]
pub enum Group {
    ModeControl,
    Fifo,
    Clocks,
    Pll,
    Radio,
    Code,
    Identity,
}

impl Group {
    /// The place of the group in the prescribed order.
    pub open spec fn rank(self) -> nat {
        match self {
            Group::ModeControl => 0,
            Group::Fifo => 1,
            Group::Clocks => 2,
            Group::Pll => 3,
            Group::Radio => 4,
            Group::Code => 5,
            Group::Identity => 6,
        }
    }
}

/// The group that the register at `addr` belongs to, if it belongs to one.
pub open spec fn group_of(addr: u8) -> Option<Group> {
    if addr == 0x01 {
        Some(Group::ModeControl)
    } else if addr == 0x03 || addr == 0x04 {
        Some(Group::Fifo)
    } else if addr == ID_REGISTER {
        Some(Group::Identity)
    } else if 0x07 <= addr <= 0x09 || addr == 0x0D {
        Some(Group::Clocks)
    } else if 0x0F <= addr <= 0x13 {
        Some(Group::Pll)
    } else if 0x14 <= addr <= 0x1C {
        Some(Group::Radio)
    } else if 0x1F <= addr <= 0x21 {
        Some(Group::Code)
    } else {
        None
    }
}

/// The registers are programmed group by group: mode control, FIFO, clocks,
/// PLL, receiver and transmitter, code. No register of an earlier group is
/// written after one of a later group, none is written twice, and the
/// identity code, which is written after the table, is not in the table.
pub proof fn lemma_program_order(i: int, j: int)
    requires
        0 <= i < j < PROGRAM_LEN,
    ensures
        PROGRAM@[i].0 != PROGRAM@[j].0,
        PROGRAM@[i].0 <= 0x31 && PROGRAM@[j].0 <= 0x31,
        group_of(PROGRAM@[i].0) != Some(Group::Identity),
        group_of(PROGRAM@[j].0) != Some(Group::Identity),
        group_of(PROGRAM@[i].0) is Some && group_of(PROGRAM@[j].0) is Some ==> group_of(
            PROGRAM@[i].0,
        )->0.rank() <= group_of(PROGRAM@[j].0)->0.rank(),
{
}

/// How far the bring-up has come: stages are numbered in the order in which
/// they are passed through.
pub open spec fn position(stage: Stage) -> nat {
    match stage {
        Stage::PowerUp => 0,
        Stage::Reset => 1,
        Stage::ResetSettle => 2,
        Stage::Program(_) => 3,
        Stage::Identity => 4,
        Stage::Standby => 5,
        Stage::FilterStart => 6,
        Stage::FilterWait(_) => 7,
        Stage::VcoCurrent => 8,
        Stage::VcoThresholds => 9,
        Stage::BandChannel(Reference::Low) => 10,
        Stage::BandStart(Reference::Low) => 11,
        Stage::BandWait(Reference::Low, _) => 12,
        Stage::BandResult(Reference::Low) => 13,
        Stage::BandChannel(Reference::High) => 14,
        Stage::BandStart(Reference::High) => 15,
        Stage::BandWait(Reference::High, _) => 16,
        Stage::BandResult(Reference::High) => 17,
        Stage::BandRelease => 18,
        Stage::FinalStandby => 19,
        Stage::ReadBack => 20,
        Stage::Done => 21,
        Stage::Failed => 22,
    }
}

/// The polls that a wait may still ask for.
pub open spec fn polls_left(wait: AutoClearWait) -> nat {
    if wait.status == WaitStatus::Pending && wait.remaining > 1 {
        wait.remaining as nat
    } else {
        1
    }
}

impl CalibrationSequencer {
    /// The polls that each wait may take: the bound, and one where the bound
    /// is zero.
    pub open spec fn polls_per_wait(self) -> nat {
        if self.bound > 1 {
            self.bound as nat
        } else {
            1
        }
    }

    /// The steps that may still follow the VCO band calibration at
    /// `reference`.
    pub open spec fn steps_after_band(self, reference: Reference) -> nat {
        match reference {
            Reference::Low => 6 + self.polls_per_wait(),
            Reference::High => 3,
        }
    }

    /// The largest number of steps that the bring-up may still take.
    pub open spec fn steps_left(self) -> nat {
        let polls = self.polls_per_wait();
        match self.stage {
            Stage::PowerUp => 17 + PROGRAM_LEN as nat + 3 * polls,
            Stage::Reset => 16 + PROGRAM_LEN as nat + 3 * polls,
            Stage::ResetSettle => 15 + PROGRAM_LEN as nat + 3 * polls,
            Stage::Program(i) => if i < PROGRAM_LEN {
                (14 + (PROGRAM_LEN - i) + 3 * polls) as nat
            } else {
                1
            },
            Stage::Identity => 14 + 3 * polls,
            Stage::Standby => 13 + 3 * polls,
            Stage::FilterStart => 12 + 3 * polls,
            Stage::FilterWait(wait) => 11 + 2 * polls + polls_left(wait),
            Stage::VcoCurrent => 11 + 2 * polls,
            Stage::VcoThresholds => 10 + 2 * polls,
            Stage::BandChannel(reference) => 3 + polls + self.steps_after_band(reference),
            Stage::BandStart(reference) => 2 + polls + self.steps_after_band(reference),
            Stage::BandWait(reference, wait) => 1 + polls_left(wait) + self.steps_after_band(
                reference,
            ),
            Stage::BandResult(reference) => 1 + self.steps_after_band(reference),
            Stage::BandRelease => 3,
            Stage::FinalStandby => 2,
            Stage::ReadBack => 1,
            Stage::Done => 0,
            Stage::Failed => 0,
        }
    }

    /// What holds of every sequencer that the bring-up passes through: the
    /// table index is within the table, each wait polls the calibration
    /// control register for its own bit and is still pending, and the report
    /// holds an outcome for every stage that lies behind.
    pub open spec fn consistent(self) -> bool {
        &&& self.stage matches Stage::Program(i) ==> i < PROGRAM_LEN
        &&& self.stage matches Stage::FilterWait(wait) ==> wait.addr == CALIBRATION_CONTROL
            && wait.mask == IF_FILTER_BANK && wait.status == WaitStatus::Pending && wait.remaining
            <= self.bound
        &&& self.stage matches Stage::BandWait(_, wait) ==> wait.addr == CALIBRATION_CONTROL
            && wait.mask == VCO_BANK && wait.status == WaitStatus::Pending && wait.remaining
            <= self.bound
        &&& self.stage != Stage::Failed ==> {
            &&& (self.report.if_filter != FilterOutcome::NotRun <==> position(self.stage) > 7)
            &&& (self.report.band_low != BandOutcome::NotRun <==> position(self.stage) > 13)
            &&& (self.report.band_high != BandOutcome::NotRun <==> position(self.stage) > 17)
            &&& (self.report.channel_read_back is Some <==> position(self.stage) > 20)
        }
    }

    /// Whether every outcome in `outcomes` is a proper result of the action
    /// that the sequencer asked for at that point.
    pub open spec fn answered_by(self, outcomes: Seq<Outcome>) -> bool
        decreases outcomes.len(),
    {
        outcomes.len() > 0 ==> answers(outcomes[0], self.next_action()) && self.after(
            outcomes[0],
        ).answered_by(outcomes.drop_first())
    }
}

/// The bring-up starts with at most `60 + 3 * max(bound, 1)` steps ahead of
/// it.
pub proof fn lemma_budget(bound: u32)
    ensures
        CalibrationSequencer::start(bound).consistent(),
        CalibrationSequencer::start(bound).steps_left() == 60 + 3 * (if bound > 1 {
            bound as nat
        } else {
            1
        }),
{
}

/// Every step brings the end of the bring-up nearer, whatever is reported,
/// and never leads back to an earlier stage.
pub proof fn lemma_step_makes_progress(s: CalibrationSequencer, outcome: Outcome)
    requires
        !s.finished(),
    ensures
        s.after(outcome).steps_left() < s.steps_left(),
        position(s.after(outcome).stage) >= position(s.stage),
        s.after(outcome).bound == s.bound,
{
    if answers(outcome, s.next_action()) {
        let reply = match outcome {
            Outcome::Transferred(reply) => reply,
            _ => seq![],
        };
        let next = s.proceed(reply);
        assert(next == s.after(outcome));
        assert(next.polls_per_wait() == s.polls_per_wait());
        match s.stage {
            Stage::FilterWait(wait) => {
                assert(polls_left(wait.after(reply[0])) < polls_left(wait) || wait.after(
                    reply[0],
                ).status != WaitStatus::Pending);
            },
            Stage::BandWait(reference, wait) => {
                assert(polls_left(wait.after(reply[0])) < polls_left(wait) || wait.after(
                    reply[0],
                ).status != WaitStatus::Pending);
                assert(next.steps_after_band(reference) == s.steps_after_band(reference));
            },
            Stage::BandStart(reference) => {
                assert(polls_left(AutoClearWait::start(CALIBRATION_CONTROL, VCO_BANK, s.bound))
                    == s.polls_per_wait());
            },
            Stage::FilterStart => {
                assert(polls_left(
                    AutoClearWait::start(CALIBRATION_CONTROL, IF_FILTER_BANK, s.bound),
                ) == s.polls_per_wait());
            },
            Stage::BandResult(reference) => {},
            Stage::BandChannel(reference) => {},
            Stage::Program(i) => {},
            _ => {},
        }
    }
}

/// A step keeps the sequencer consistent.
pub proof fn lemma_step_keeps_consistent(s: CalibrationSequencer, outcome: Outcome)
    requires
        s.consistent(),
    ensures
        s.after(outcome).consistent(),
{
}

/// The bring-up is given up only where the transport fails: a proper result
/// never leads to the failed stage, whatever it says of a calibration, and
/// it leaves the findings of the stages that lie behind untouched.
pub proof fn lemma_only_the_transport_aborts(s: CalibrationSequencer, outcome: Outcome)
    requires
        !s.finished(),
        answers(outcome, s.next_action()),
    ensures
        s.after(outcome).stage != Stage::Failed,
        !(outcome is Fault),
{
}

/// Anything that is not a proper result of the action ends the bring-up at
/// once, with the report as it stood.
pub proof fn lemma_fault_aborts(s: CalibrationSequencer, outcome: Outcome)
    requires
        !s.finished(),
        !answers(outcome, s.next_action()),
    ensures
        s.after(outcome).stage == Stage::Failed,
        s.after(outcome).report == s.report,
        s.after(outcome).outcome_of() == Some(Err::<CalibrationReport, InitError>(InitError::Bus)),
{
}

/// The bring-up has come to an end once as many results have been reported
/// as it had steps left, whatever they were.
pub proof fn lemma_bring_up_ends(s: CalibrationSequencer, outcomes: Seq<Outcome>)
    requires
        outcomes.len() >= s.steps_left(),
    ensures
        s.after_all(outcomes).finished(),
    decreases outcomes.len(),
{
    if outcomes.len() > 0 {
        if s.finished() {
            lemma_finished_is_stable(s, outcomes);
        } else {
            lemma_step_makes_progress(s, outcomes[0]);
            lemma_bring_up_ends(s.after(outcomes[0]), outcomes.drop_first());
        }
    }
}

/// A sequencer that has finished stays as it is.
pub proof fn lemma_finished_is_stable(s: CalibrationSequencer, outcomes: Seq<Outcome>)
    requires
        s.finished(),
    ensures
        s.after_all(outcomes) == s,
    decreases outcomes.len(),
{
    if outcomes.len() > 0 {
        lemma_finished_is_stable(s, outcomes.drop_first());
    }
}

/// Where the transport answers every action properly, the bring-up is done
/// within its budget, whatever the calibrations report, and the report then
/// holds an outcome for every stage.
pub proof fn lemma_bring_up_completes(bound: u32, outcomes: Seq<Outcome>)
    requires
        CalibrationSequencer::start(bound).answered_by(outcomes),
        outcomes.len() >= CalibrationSequencer::start(bound).steps_left(),
    ensures
        ({
            let end = CalibrationSequencer::start(bound).after_all(outcomes);
            &&& end.stage == Stage::Done
            &&& end.outcome_of() == Some(Ok::<CalibrationReport, InitError>(end.report))
            &&& end.report.if_filter != FilterOutcome::NotRun
            &&& end.report.band_low != BandOutcome::NotRun
            &&& end.report.band_high != BandOutcome::NotRun
            &&& end.report.channel_read_back is Some
        }),
{
    let start = CalibrationSequencer::start(bound);
    lemma_budget(bound);
    lemma_bring_up_ends(start, outcomes);
    lemma_answered_run(start, outcomes);
}

/// A run in which every action is answered properly keeps the sequencer
/// consistent and away from the failed stage.
pub proof fn lemma_answered_run(s: CalibrationSequencer, outcomes: Seq<Outcome>)
    requires
        s.consistent(),
        s.stage != Stage::Failed,
        s.answered_by(outcomes),
    ensures
        s.after_all(outcomes).consistent(),
        s.after_all(outcomes).stage != Stage::Failed,
    decreases outcomes.len(),
{
    if outcomes.len() > 0 {
        lemma_step_keeps_consistent(s, outcomes[0]);
        if !s.finished() {
            lemma_only_the_transport_aborts(s, outcomes[0]);
        }
        lemma_answered_run(s.after(outcomes[0]), outcomes.drop_first());
    }
}

/// The result of the step with this number in a bring-up in which nothing
/// goes wrong, as far as the programming of the registers: the two pauses
/// that frame the reset end, and every write goes through.
pub open spec fn opening_outcome(step: int) -> Outcome {
    if step == 0 || step == 2 {
        Outcome::Paused
    } else {
        Outcome::Transferred(seq![])
    }
}

/// The results of the first `count` steps of a bring-up in which nothing
/// goes wrong.
pub open spec fn opening(count: nat) -> Seq<Outcome> {
    Seq::new(count, |step: int| opening_outcome(step))
}

/// The stage that a bring-up in which nothing goes wrong has come to after
/// `count` steps, as far as the first calibration.
pub open spec fn opening_stage(count: nat) -> Stage {
    if count == 0 {
        Stage::PowerUp
    } else if count == 1 {
        Stage::Reset
    } else if count == 2 {
        Stage::ResetSettle
    } else if count < 3 + PROGRAM_LEN {
        Stage::Program((count - 3) as usize)
    } else if count == 3 + PROGRAM_LEN {
        Stage::Identity
    } else if count == 4 + PROGRAM_LEN {
        Stage::Standby
    } else {
        Stage::FilterStart
    }
}

/// The bring-up opens with the pause after power-up, the reset and the pause
/// after it, then writes the table entry by entry, then the identity code,
/// and enters standby before the first calibration is started. Nothing is
/// written to the report on the way.
pub proof fn lemma_opening(bound: u32, count: nat)
    requires
        count <= 5 + PROGRAM_LEN,
    ensures
        CalibrationSequencer::start(bound).after_all(opening(count)) == (CalibrationSequencer {
            stage: opening_stage(count),
            ..CalibrationSequencer::start(bound)
        }),
        3 <= count < 3 + PROGRAM_LEN ==> CalibrationSequencer::start(bound).after_all(
            opening(count),
        ).next_action() == Request::Transfer(
            write_exchange(PROGRAM@[count - 3].0, seq![PROGRAM@[count - 3].1]),
        ),
    decreases count,
{
    let start = CalibrationSequencer::start(bound);
    if count == 0 {
        assert(start.after_all(opening(0)) == start);
    } else {
        let before = (count - 1) as nat;
        lemma_opening(bound, before);
        lemma_after_all_push(start, opening(before), opening_outcome(before as int));
        assert(opening(before).push(opening_outcome(before as int)) =~= opening(count));
    }
}

/// Reporting one more result is taking one more step.
pub proof fn lemma_after_all_push(
    s: CalibrationSequencer,
    outcomes: Seq<Outcome>,
    last: Outcome,
)
    ensures
        s.after_all(outcomes.push(last)) == s.after_all(outcomes).after(last),
    decreases outcomes.len(),
{
    let all = outcomes.push(last);
    if outcomes.len() == 0 {
        assert(all.drop_first() =~= outcomes);
        assert(s.after(last).after_all(all.drop_first()) == s.after(last));
    } else {
        assert(all.drop_first() =~= outcomes.drop_first().push(last));
        lemma_after_all_push(s.after(outcomes[0]), outcomes.drop_first(), last);
    }
}

/// The addresses and values that the calibrations use are those of the
/// registers: the enable bits are bits of the calibration control register,
/// the recommended VCO current is a manual setting of 3, the value that ends
/// the band calibration is a manual band of 0, and a band result counts as
/// a success where bit 3 of the result register is clear.
pub proof fn lemma_calibration_registers(raw: u8)
    ensures
        CALIBRATION_CONTROL == CalibrationControl::address(),
        IF_FILTER_BANK == (CalibrationControl {
            vco_current_calibration_enabled: false,
            vco_bank_calibration_enabled: false,
            if_filter_bank_calibration_enabled: true,
        }).bits(),
        VCO_BANK == (CalibrationControl {
            vco_current_calibration_enabled: false,
            vco_bank_calibration_enabled: true,
            if_filter_bank_calibration_enabled: false,
        }).bits(),
        CalibrationControl::of_bits(raw).if_filter_bank_calibration_enabled <==> raw
            & IF_FILTER_BANK != 0,
        CalibrationControl::of_bits(raw).vco_bank_calibration_enabled <==> raw & VCO_BANK != 0,
        VCO_CURRENT == VcoCurrentCalibration::address(),
        VCO_CURRENT_RECOMMENDED == VcoCurrentCalibration::Manual(3).bits(),
        VCO_BAND_1 == VcoSingleBandCalibration1::address(),
        VCO_BAND_1 == VcoSingleBandCalibration1Result::address(),
        VCO_BAND_RELEASE == VcoSingleBandCalibration1::Manual(0).bits(),
        CalibrationResult::of_band(raw).success <==> raw & VCO_BAND_FAILED == 0,
        CHANNEL_REGISTER == Pll1::address(),
        ID_REGISTER == IdData::address(),
{
    assert((raw & 0x08 == 0) == ((raw / 8) % 2 == 0) && (raw & 0x01 != 0) == (raw % 2 == 1) && (raw
        & 0x02 != 0) == ((raw / 2) % 2 == 1)) by (bit_vector);
}

/// The table holds for these registers what their types give: for the pin
/// control of GPIO1 the serial data output, for the PLL registers their own
/// addresses, and for the second PLL, the transmitter and the ADC registers
/// their defaults.
pub proof fn lemma_program_registers()
    ensures
        PROGRAM@[0] == (
            Gpio1PinControl::address(),
            (Gpio1PinControl {
                pin_function: GpioPinFunction::Sdo,
                invert_output: false,
                output_enabled: true,
            }).bits(),
        ),
        PROGRAM@[12] == (
            Pll2::address(),
            (Pll2 {
                crystal_freq_doubler: true,
                rf_pll_ref_counter: 0,
                pll_chn_step: 15,
                ip8: false,
            }).bits(),
        ),
        PROGRAM@[11].0 == Pll1::address(),
        PROGRAM@[13].0 == Pll3::address(),
        PROGRAM@[14].0 == Pll4::address(),
        PROGRAM@[15] == (Pll5::address(), 0x02u8),
        PROGRAM@[16] == (
            Tx1::address(),
            (Tx1 {
                moving_average: None,
                data_invert: false,
                modulation_enable: true,
                filter_enable: false,
                fdp: 6,
            }).bits(),
        ),
        PROGRAM@[17] == (Tx2::address(), (Tx2 { fd: 11 }).bits()),
        PROGRAM@[21] == (
            RxGain1::address(),
            (RxGain1 {
                manual_vga_calibration: true,
                mixer_gain: MixerGain::db24,
                lna_gain: LnaGain::db24,
            }).bits(),
        ),
        PROGRAM@[24] == (
            AdcControl::address(),
            (AdcControl {
                margin: RssiMargin::Twenty,
                rssi_end_early: false,
                adc_clock_speed: AdcClockSpeed::Mhz4,
                capture_mode: AdcCaptureMode::Continuous,
            }).bits(),
        ),
        PROGRAM@[25] == (
            Code1::address(),
            (Code1 {
                data_whitening_enabled: false,
                fec_enabled: true,
                crc_enabled: true,
                id_length: IdLength::Four,
                preable_length: PreambleLength::Four,
            }).bits(),
        ),
{
}

/// The bring-up asks for no strobe but the one to standby, and it writes
/// nothing to the calibration control register but zero and the enable bits
/// of the two calibrations that it waits for: it never starts the VCO
/// current calibration, whose value it writes instead.
pub proof fn lemma_bring_up_asks(s: CalibrationSequencer)
    ensures
        s.next_action() matches Request::Transfer(exchange) ==> {
            &&& exchange.sent.len() >= 1
            &&& exchange.sent[0] >= 0x80 ==> exchange == strobe_exchange(Strobe::Standby)
            &&& exchange.sent.len() == 2 && exchange.sent[0] == CALIBRATION_CONTROL
                ==> exchange.sent[1] == 0x00 || exchange.sent[1] == IF_FILTER_BANK
                || exchange.sent[1] == VCO_BANK
            &&& exchange.sent.len() == 2 && exchange.sent[0] == CALIBRATION_CONTROL
                ==> exchange.sent[1] != 0x04
        },
{
    let addr: u8 = match s.stage {
        Stage::Program(i) => if i < PROGRAM_LEN {
            PROGRAM@[i as int].0
        } else {
            0
        },
        Stage::FilterWait(wait) => wait.addr,
        Stage::BandWait(_, wait) => wait.addr,
        _ => 0,
    };
    assert((addr & 0x3F) < 0x80 && ((addr & 0x3F) | 0x40) < 0x80 && ((addr & 0x3F) | 0x40) >= 0x40
        && (addr <= 0x3F ==> addr & 0x3F == addr)) by (bit_vector);
    crate::commands::lemma_opcode_shape(Strobe::Standby);
    lemma_address_in_range(0x00);
    lemma_address_in_range(ID_REGISTER);
    lemma_address_in_range(CALIBRATION_CONTROL);
    lemma_address_in_range(VCO_CURRENT);
    lemma_address_in_range(VCO_BAND_1);
    lemma_address_in_range(VCO_BAND_2);
    lemma_address_in_range(CHANNEL_REGISTER);
    if let Stage::Program(i) = s.stage {
        if i < PROGRAM_LEN {
            assert(PROGRAM@[i as int].0 <= 0x31);
            assert(PROGRAM@[i as int].0 == CALIBRATION_CONTROL ==> PROGRAM@[i as int].1 == 0x00);
        }
    }
}

impl CalibrationSequencer {
    /// The calls of a run in which `outcomes` are reported: each action
    /// that the sequencer asks for, with what was reported for it.
    pub open spec fn transcript(self, outcomes: Seq<Outcome>) -> Seq<Call>
        decreases outcomes.len(),
    {
        if outcomes.len() == 0 {
            seq![]
        } else {
            seq![Call { request: self.next_action(), outcome: outcomes[0] }] + self.after(
                outcomes[0],
            ).transcript(outcomes.drop_first())
        }
    }
}

/// One more result reported is one more call on record: the action that the
/// sequencer asked for after the results before it, with that result.
pub proof fn lemma_transcript_push(s: CalibrationSequencer, outcomes: Seq<Outcome>, last: Outcome)
    ensures
        s.transcript(outcomes.push(last)) == s.transcript(outcomes).push(
            Call { request: s.after_all(outcomes).next_action(), outcome: last },
        ),
        s.transcript(outcomes).len() == outcomes.len(),
    decreases outcomes.len(),
{
    let all = outcomes.push(last);
    if outcomes.len() == 0 {
        assert(all.drop_first() =~= outcomes);
        assert(s.after(last).transcript(all.drop_first()) =~= Seq::<Call>::empty());
        assert(s.transcript(all) =~= s.transcript(outcomes).push(
            Call { request: s.next_action(), outcome: last },
        ));
    } else {
        assert(all.drop_first() =~= outcomes.drop_first().push(last));
        lemma_transcript_push(s.after(outcomes[0]), outcomes.drop_first(), last);
        assert(s.transcript(all) =~= s.transcript(outcomes).push(
            Call { request: s.after_all(outcomes).next_action(), outcome: last },
        ));
    }
}

} // verus!
