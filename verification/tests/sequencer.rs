use a7105::bus::{read, strobe, Transaction};
use a7105::commands::Strobe;
use a7105::radio::A7105;
use a7105::report::{
    BandOutcome, CalibrationReport, CalibrationResult, FilterOutcome, Finding, InitError,
    Reference,
};
use a7105::sequencer::{CalibrationSequencer, Stage, PROGRAM, PROGRAM_LEN, RADIO_ID};
use a7105::step::{Action, Event};

/// A chip that completes each calibration after `polls` polls and reports
/// `result_low` and `result_high` for the two band calibrations.
struct Chip {
    polls: u32,
    result_low: u8,
    result_high: u8,
    channel: u8,
    busy: u32,
    log: Vec<Action>,
}

impl Chip {
    fn new(polls: u32, result_low: u8, result_high: u8) -> Chip {
        Chip { polls, result_low, result_high, channel: 0, busy: 0, log: Vec::new() }
    }

    fn perform(&mut self, action: &Action) -> Event {
        self.log.push(action.clone());
        match action {
            Action::Transfer(t) => {
                let first = t.tx[0];
                if first & 0x80 != 0 {
                    Event::Transferred(vec![])
                } else if first & 0x40 != 0 {
                    let addr = first & 0x3F;
                    let value = match addr {
                        0x02 => {
                            if self.busy > 0 {
                                self.busy -= 1;
                                0x03
                            } else {
                                0x00
                            }
                        }
                        0x25 => {
                            if self.channel == 0x00 {
                                self.result_low
                            } else {
                                self.result_high
                            }
                        }
                        0x0F => self.channel,
                        _ => 0,
                    };
                    Event::Transferred(vec![value; t.rx_len])
                } else {
                    if first == 0x0F {
                        self.channel = t.tx[1];
                    }
                    if first == 0x02 && t.tx[1] != 0 {
                        self.busy = self.polls;
                    }
                    Event::Transferred(vec![])
                }
            }
            Action::Pause(_) => Event::Paused,
            Action::Sample => Event::Sampled(false),
            Action::Halt => Event::Fault,
        }
    }
}

fn run(sequencer: &mut CalibrationSequencer, chip: &mut Chip) -> usize {
    let mut steps = 0;
    while !sequencer.is_finished() {
        let action = sequencer.action();
        let event = chip.perform(&action);
        sequencer.advance(&event);
        steps += 1;
        assert!(steps < 10_000);
    }
    steps
}

fn write_byte(addr: u8, value: u8) -> Action {
    Action::Transfer(Transaction { tx: vec![addr, value], rx_len: 0 })
}

#[test]
fn bring_up_runs_the_prescribed_sequence() {
    let mut sequencer = A7105::new(10).init();
    assert_eq!(sequencer, CalibrationSequencer::new(10));
    assert_eq!(sequencer.outcome(), None);
    let mut chip = Chip::new(0, 0x03, 0x04);
    let steps = run(&mut sequencer, &mut chip);

    let mut expected = vec![Action::Pause(25_000), write_byte(0x00, 0x00), Action::Pause(50_000)];
    for (addr, value) in PROGRAM {
        expected.push(write_byte(addr, value));
    }
    expected.push(Action::Transfer(Transaction {
        tx: vec![0x06, 0x54, 0x75, 0xC5, 0x2A],
        rx_len: 0,
    }));
    expected.push(Action::Transfer(strobe(Strobe::Standby)));
    expected.push(write_byte(0x02, 0x01));
    expected.push(Action::Transfer(read(0x02, 1)));
    expected.push(write_byte(0x24, 0x13));
    expected.push(write_byte(0x26, 0x3B));
    for channel in [0x00, 0xA0] {
        expected.push(write_byte(0x0F, channel));
        expected.push(write_byte(0x02, 0x02));
        expected.push(Action::Transfer(read(0x02, 1)));
        expected.push(Action::Transfer(read(0x25, 1)));
    }
    expected.push(write_byte(0x25, 0x08));
    expected.push(Action::Transfer(strobe(Strobe::Standby)));
    expected.push(Action::Transfer(read(0x0F, 1)));
    assert_eq!(chip.log, expected);
    assert_eq!(steps, expected.len());
    assert_eq!(steps, 63);

    let report = CalibrationReport {
        if_filter: FilterOutcome::Completed,
        band_low: BandOutcome::Measured(CalibrationResult { success: true, raw_value: 0x03 }),
        band_high: BandOutcome::Measured(CalibrationResult { success: true, raw_value: 0x04 }),
        channel_read_back: Some(0xA0),
    };
    assert_eq!(sequencer.stage, Stage::Done);
    assert_eq!(sequencer.outcome(), Some(Ok(report)));
    assert!(report.channel_persisted());
    assert_eq!(report.findings(), vec![]);
    assert_eq!(sequencer.action(), Action::Halt);
}

#[test]
fn program_table_matches_the_datasheet_values() {
    assert_eq!(PROGRAM_LEN, 43);
    assert_eq!(PROGRAM.len(), PROGRAM_LEN);
    assert_eq!(PROGRAM[0], (0x0B, 0x19));
    assert_eq!(PROGRAM[1], (0x01, 0x42));
    assert_eq!(PROGRAM[11], (0x0F, 0x50));
    assert_eq!(PROGRAM[42], (0x31, 0x0F));
    assert_eq!(RADIO_ID, [0x54, 0x75, 0xC5, 0x2A]);
    assert_eq!(Reference::Low.channel(), 0x00);
    assert_eq!(Reference::High.channel(), 0xA0);
    for (i, (addr, _)) in PROGRAM.iter().enumerate() {
        assert!(*addr <= 0x31);
        assert_ne!(*addr, 0x06);
        for (other, _) in &PROGRAM[i + 1..] {
            assert_ne!(addr, other);
        }
    }
}

#[test]
fn calibration_waits_until_the_bit_clears() {
    let mut sequencer = CalibrationSequencer::new(10);
    let mut chip = Chip::new(4, 0x00, 0x00);
    let steps = run(&mut sequencer, &mut chip);
    assert_eq!(steps, 63 + 3 * 4);
    let polls = chip.log.iter().filter(|a| **a == Action::Transfer(read(0x02, 1))).count();
    assert_eq!(polls, 15);
    let report = sequencer.outcome().unwrap().unwrap();
    assert_eq!(report.if_filter, FilterOutcome::Completed);
    assert_eq!(report.findings(), vec![]);
}

#[test]
fn calibration_timeouts_do_not_stop_the_bring_up() {
    let mut sequencer = CalibrationSequencer::new(3);
    let mut chip = Chip::new(100, 0x00, 0x00);
    let steps = run(&mut sequencer, &mut chip);
    // Three waits of three polls each, and no result is read after a timeout.
    assert_eq!(steps, 63 - 3 - 2 + 9);
    assert_eq!(chip.log.iter().filter(|a| **a == Action::Transfer(read(0x25, 1))).count(), 0);
    let report = sequencer.outcome().unwrap().unwrap();
    assert_eq!(
        report,
        CalibrationReport {
            if_filter: FilterOutcome::TimedOut,
            band_low: BandOutcome::TimedOut,
            band_high: BandOutcome::TimedOut,
            channel_read_back: Some(0xA0),
        }
    );
    assert_eq!(
        report.findings(),
        vec![Finding::FilterTimeout, Finding::BandTimeout(0x00), Finding::BandTimeout(0xA0)]
    );
}

#[test]
fn bound_of_zero_still_polls_once() {
    let mut sequencer = CalibrationSequencer::new(0);
    let mut chip = Chip::new(0, 0x00, 0x00);
    assert_eq!(run(&mut sequencer, &mut chip), 63);
    assert_eq!(sequencer.outcome().unwrap().unwrap().findings(), vec![]);

    let mut sequencer = CalibrationSequencer::new(0);
    let mut chip = Chip::new(1, 0x00, 0x00);
    run(&mut sequencer, &mut chip);
    assert_eq!(sequencer.outcome().unwrap().unwrap().if_filter, FilterOutcome::TimedOut);
}

#[test]
fn failure_bit_is_recorded_per_channel() {
    let mut sequencer = CalibrationSequencer::new(5);
    let mut chip = Chip::new(1, 0x0B, 0x07);
    run(&mut sequencer, &mut chip);
    let report = sequencer.outcome().unwrap().unwrap();
    assert_eq!(
        report.band_low,
        BandOutcome::Measured(CalibrationResult { success: false, raw_value: 0x0B })
    );
    assert_eq!(
        report.band_high,
        BandOutcome::Measured(CalibrationResult { success: true, raw_value: 0x07 })
    );
    assert_eq!(report.findings(), vec![Finding::CalibrationFailure(0x00)]);

    let mut sequencer = CalibrationSequencer::new(5);
    let mut chip = Chip::new(1, 0x10, 0xF8);
    run(&mut sequencer, &mut chip);
    let report = sequencer.outcome().unwrap().unwrap();
    assert_eq!(report.findings(), vec![Finding::CalibrationFailure(0xA0)]);
    assert_eq!(CalibrationResult::from_band(0x08).success, false);
    assert_eq!(CalibrationResult::from_band(0xF7).success, true);
    assert_eq!(CalibrationResult::from_band(0xF7).raw_value, 0xF7);
}

#[test]
fn channel_mismatch_is_a_warning() {
    let mut sequencer = CalibrationSequencer::new(5);
    let mut steps = 0;
    while !sequencer.is_finished() {
        let action = sequencer.action();
        let event = match &action {
            Action::Transfer(t) => {
                if t.rx_len == 0 {
                    Event::Transferred(vec![])
                } else if t.tx[0] == 0x4F {
                    Event::Transferred(vec![0x50])
                } else {
                    Event::Transferred(vec![0x00])
                }
            }
            Action::Pause(_) => Event::Paused,
            _ => Event::Fault,
        };
        sequencer.advance(&event);
        steps += 1;
    }
    assert_eq!(steps, 63);
    let report = sequencer.outcome().unwrap().unwrap();
    assert_eq!(report.channel_read_back, Some(0x50));
    assert!(!report.channel_persisted());
    assert_eq!(
        report.findings(),
        vec![Finding::ChannelPersistenceMismatch { expected: 0xA0, found: 0x50 }]
    );
}

#[test]
fn transport_fault_ends_the_bring_up() {
    for fail_at in [0usize, 1, 5, 47, 50, 62] {
        let mut sequencer = CalibrationSequencer::new(5);
        let mut chip = Chip::new(0, 0, 0);
        for _ in 0..fail_at {
            let action = sequencer.action();
            let event = chip.perform(&action);
            sequencer.advance(&event);
        }
        assert!(!sequencer.is_finished());
        let before = sequencer.report;
        sequencer.advance(&Event::Fault);
        assert!(sequencer.is_finished());
        assert_eq!(sequencer.stage, Stage::Failed);
        assert_eq!(sequencer.outcome(), Some(Err(InitError::Bus)));
        assert_eq!(sequencer.report, before);
        assert_eq!(sequencer.action(), Action::Halt);
        sequencer.advance(&Event::Paused);
        assert_eq!(sequencer.stage, Stage::Failed);
    }
}

#[test]
fn improper_results_count_as_faults() {
    let mut sequencer = CalibrationSequencer::new(5);
    sequencer.advance(&Event::Transferred(vec![]));
    assert_eq!(sequencer.outcome(), Some(Err(InitError::Bus)));

    let mut sequencer = CalibrationSequencer::new(5);
    sequencer.advance(&Event::Paused);
    assert_eq!(sequencer.stage, Stage::Reset);
    sequencer.advance(&Event::Transferred(vec![0]));
    assert_eq!(sequencer.stage, Stage::Failed);

    let mut sequencer = CalibrationSequencer::new(5);
    sequencer.stage = Stage::ReadBack;
    sequencer.advance(&Event::Transferred(vec![0xA0, 0xA0]));
    assert_eq!(sequencer.stage, Stage::Failed);

    let mut sequencer = CalibrationSequencer::new(5);
    sequencer.stage = Stage::Program(PROGRAM_LEN);
    assert_eq!(sequencer.action(), Action::Halt);
    sequencer.advance(&Event::Transferred(vec![]));
    assert_eq!(sequencer.stage, Stage::Failed);
}

#[test]
fn finished_sequencer_ignores_events() {
    let mut sequencer = CalibrationSequencer::new(1);
    let mut chip = Chip::new(0, 0, 0);
    run(&mut sequencer, &mut chip);
    let done = sequencer;
    sequencer.advance(&Event::Fault);
    assert_eq!(sequencer, done);
    sequencer.advance(&Event::Transferred(vec![1]));
    assert_eq!(sequencer, done);
}
