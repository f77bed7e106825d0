//! What the bring-up of the chip found.
//!
//! A calibration that fails or does not complete is no reason to give the
//! chip up: it is written into the report, and whoever started the bring-up
//! decides what to make of it.

use vstd::prelude::*;
use crate::registers::VcoSingleBandCalibration1Result;

verus! {

/// Bit of the VCO band calibration result that reports a failure.
pub const VCO_BAND_FAILED: u8 = 0x08;

/// One of the two channels at which the VCO band is calibrated.
#[derive(Clone, Copy, Debug, PartialEq, Eq, Structural)]
pub enum Reference {
    /// The bottom of the band.
    Low,
    /// The top of the band.
    High,
}

impl Reference {
    /// The channel number of this reference.
    pub open spec fn channel_of(self) -> u8 {
        match self {
            Reference::Low => 0x00,
            Reference::High => 0xA0,
        }
    }

    /// The channel number of this reference.
    pub fn channel(self) -> (ch: u8)
        ensures
            ch == self.channel_of(),
    {
        match self {
            Reference::Low => 0x00,
            Reference::High => 0xA0,
        }
    }
}

/// What was read back after a calibration had completed.
#[derive(Clone, Copy, Debug, PartialEq, Eq, Structural)]
pub struct CalibrationResult {
    /// Whether the chip reported the calibration as good.
    pub success: bool,
    /// The result register as it was read.
    pub raw_value: u8,
}

impl CalibrationResult {
    /// Reading of the VCO band calibration result: the calibration went well
    /// where the result register says so.
    pub open spec fn of_band(raw: u8) -> CalibrationResult {
        CalibrationResult {
            success: VcoSingleBandCalibration1Result::of_bits(raw).success,
            raw_value: raw,
        }
    }

    /// Interprets a byte read from the VCO band calibration result register.
    pub fn from_band(raw: u8) -> (r: CalibrationResult)
        ensures
            r == CalibrationResult::of_band(raw),
    {
        CalibrationResult {
            success: VcoSingleBandCalibration1Result::from(raw).success,
            raw_value: raw,
        }
    }
}

/// How the IF filter bank calibration went.
#[derive(Clone, Copy, Debug, PartialEq, Eq, Structural)]
pub enum FilterOutcome {
    /// The stage has not been reached.
    NotRun,
    /// The chip cleared the enable bit in time.
    Completed,
    /// The enable bit was still set when the bound was used up.
    TimedOut,
}

/// How the VCO band calibration went at one reference channel.
#[derive(Clone, Copy, Debug, PartialEq, Eq, Structural)]
pub enum BandOutcome {
    /// The stage has not been reached.
    NotRun,
    /// The enable bit was still set when the bound was used up; no result
    /// was read.
    TimedOut,
    /// The calibration completed and this was read back.
    Measured(CalibrationResult),
}

/// What the bring-up found. Nothing in here stopped it.
#[derive(Clone, Copy, Debug, PartialEq, Eq)]
pub struct CalibrationReport {
    /// IF filter bank calibration.
    pub if_filter: FilterOutcome,
    /// VCO band calibration at the low reference channel.
    pub band_low: BandOutcome,
    /// VCO band calibration at the high reference channel.
    pub band_high: BandOutcome,
    /// The channel register as read back at the end, if it was read.
    pub channel_read_back: Option<u8>,
}

/// Something that went wrong during bring-up without stopping it.
#[derive(Clone, Copy, Debug, PartialEq, Eq)]
pub enum Finding {
    /// The IF filter bank calibration did not complete within the bound.
    FilterTimeout,
    /// The VCO band calibration at this channel did not complete within the
    /// bound.
    BandTimeout(u8),
    /// The VCO band calibration at this channel reported its failure bit.
    CalibrationFailure(u8),
    /// The channel register did not hold the channel programmed last.
    ChannelPersistenceMismatch {
        expected: u8,
        found: u8,
    },
}

/// Why the bring-up was given up.
#[derive(Clone, Copy, Debug, PartialEq, Eq, Structural)]
pub enum InitError {
    /// The transport failed, or answered an action with something else than
    /// was asked for.
    Bus,
}

impl CalibrationReport {
    /// The report before anything has run.
    pub open spec fn blank() -> CalibrationReport {
        CalibrationReport {
            if_filter: FilterOutcome::NotRun,
            band_low: BandOutcome::NotRun,
            band_high: BandOutcome::NotRun,
            channel_read_back: None,
        }
    }

    /// The outcome recorded for `reference`.
    pub open spec fn band(self, reference: Reference) -> BandOutcome {
        match reference {
            Reference::Low => self.band_low,
            Reference::High => self.band_high,
        }
    }

    /// The report with `outcome` recorded for `reference`.
    pub open spec fn with_band(self, reference: Reference, outcome: BandOutcome)
        -> CalibrationReport {
        match reference {
            Reference::Low => CalibrationReport { band_low: outcome, ..self },
            Reference::High => CalibrationReport { band_high: outcome, ..self },
        }
    }

    /// What the outcome at one reference channel gives rise to.
    pub open spec fn band_findings(outcome: BandOutcome, channel: u8) -> Seq<Finding> {
        match outcome {
            BandOutcome::NotRun => seq![],
            BandOutcome::TimedOut => seq![Finding::BandTimeout(channel)],
            BandOutcome::Measured(result) => if result.success {
                seq![]
            } else {
                seq![Finding::CalibrationFailure(channel)]
            },
        }
    }

    /// What the channel read-back gives rise to.
    pub open spec fn read_back_findings(read_back: Option<u8>) -> Seq<Finding> {
        match read_back {
            Some(found) => if found == Reference::High.channel_of() {
                seq![]
            } else {
                seq![
                    Finding::ChannelPersistenceMismatch {
                        expected: Reference::High.channel_of(),
                        found,
                    },
                ]
            },
            None => seq![],
        }
    }

    /// Everything in the report that asks for attention, in the order of the
    /// stages.
    pub open spec fn findings_of(self) -> Seq<Finding> {
        (if self.if_filter == FilterOutcome::TimedOut {
            seq![Finding::FilterTimeout]
        } else {
            seq![]
        }) + Self::band_findings(self.band_low, Reference::Low.channel_of())
            + Self::band_findings(self.band_high, Reference::High.channel_of())
            + Self::read_back_findings(self.channel_read_back)
    }

    /// Whether the channel register, if it was read back, held the channel
    /// that was programmed last.
    pub fn channel_persisted(&self) -> (ok: bool)
        ensures
            ok == (self.channel_read_back matches Some(found) ==> found
                == Reference::High.channel_of()),
    {
        match self.channel_read_back {
            Some(found) => found == Reference::High.channel(),
            None => true,
        }
    }

    /// Lists what went wrong, in the order of the stages. The list is empty
    /// where every stage that ran went well.
    pub fn findings(&self) -> (list: Vec<Finding>)
        ensures
            list@ == self.findings_of(),
    {
        let mut list: Vec<Finding> = Vec::new();
        match self.if_filter {
            FilterOutcome::TimedOut => {
                list.push(Finding::FilterTimeout);
            },
            _ => {},
        }
        let ghost first = list@;
        match self.band_low {
            BandOutcome::TimedOut => {
                list.push(Finding::BandTimeout(Reference::Low.channel()));
            },
            BandOutcome::Measured(result) => {
                if !result.success {
                    list.push(Finding::CalibrationFailure(Reference::Low.channel()));
                }
            },
            BandOutcome::NotRun => {},
        }
        let ghost second = list@;
        assert(second =~= first + Self::band_findings(self.band_low, Reference::Low.channel_of()));
        match self.band_high {
            BandOutcome::TimedOut => {
                list.push(Finding::BandTimeout(Reference::High.channel()));
            },
            BandOutcome::Measured(result) => {
                if !result.success {
                    list.push(Finding::CalibrationFailure(Reference::High.channel()));
                }
            },
            BandOutcome::NotRun => {},
        }
        let ghost third = list@;
        assert(third =~= second + Self::band_findings(
            self.band_high,
            Reference::High.channel_of(),
        ));
        match self.channel_read_back {
            Some(found) => {
                if found != Reference::High.channel() {
                    list.push(
                        Finding::ChannelPersistenceMismatch {
                            expected: Reference::High.channel(),
                            found,
                        },
                    );
                }
            },
            None => {},
        }
        assert(list@ =~= third + Self::read_back_findings(self.channel_read_back));
        list
    }
}

} // verus!
