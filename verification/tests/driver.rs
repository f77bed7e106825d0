use a7105::afhds2::{Afhds2, CONFIGURE_LEN};
use a7105::backend::{Backend, Recorder};
use a7105::driver::{bring_up, configure, poll_frame};
use a7105::loopback::Loopback;
use a7105::packet::{BindPacket, TransmitterPacket};
use a7105::report::{BandOutcome, CalibrationReport, CalibrationResult, FilterOutcome, InitError};
use a7105::scanner::{Attempt, ChannelScanner, ScanStage};
use a7105::step::{Action, Event};

/// A backend that answers from a script and counts what it performs.
struct Scripted {
    performed: usize,
    fail_at: Option<usize>,
    busy_polls: u32,
    busy: u32,
    channel: u8,
    ready_on: u8,
    raised: bool,
    frame: Vec<u8>,
}

impl Scripted {
    fn new() -> Scripted {
        Scripted {
            performed: 0,
            fail_at: None,
            busy_polls: 0,
            busy: 0,
            channel: 0,
            ready_on: 0xFF,
            raised: false,
            frame: vec![0; 37],
        }
    }
}

impl Backend for Scripted {
    fn perform(&mut self, action: &Action) -> Event {
        let step = self.performed;
        self.performed += 1;
        if self.fail_at == Some(step) {
            return Event::Fault;
        }
        match action {
            Action::Transfer(t) => {
                let first = t.tx[0];
                if first == 0xC0 {
                    self.raised = false;
                    Event::Transferred(vec![])
                } else if first & 0x80 != 0 {
                    Event::Transferred(vec![])
                } else if first == 0x42 {
                    if self.busy > 0 {
                        self.busy -= 1;
                        Event::Transferred(vec![0x03])
                    } else {
                        Event::Transferred(vec![0x00])
                    }
                } else if first == 0x4F {
                    Event::Transferred(vec![self.channel])
                } else if first == 0x45 {
                    Event::Transferred(self.frame.clone())
                } else if first & 0x40 != 0 {
                    Event::Transferred(vec![0x00; t.rx_len])
                } else {
                    if first == 0x0F {
                        self.channel = t.tx[1];
                    }
                    if first == 0x02 && t.tx[1] != 0 {
                        self.busy = self.busy_polls;
                    }
                    Event::Transferred(vec![])
                }
            }
            Action::Pause(_) => Event::Paused,
            Action::Sample => {
                if self.channel == self.ready_on && !self.raised {
                    self.raised = true;
                    Event::Sampled(true)
                } else {
                    Event::Sampled(false)
                }
            }
            Action::Halt => Event::Fault,
        }
    }
}

/// A backend that reports whatever a counter suggests, proper or not.
struct Erratic {
    performed: usize,
    seed: u32,
}

impl Backend for Erratic {
    fn perform(&mut self, action: &Action) -> Event {
        self.performed += 1;
        self.seed = self.seed.wrapping_mul(1_664_525).wrapping_add(1_013_904_223);
        let roll = (self.seed >> 24) as u8;
        match action {
            Action::Transfer(t) if roll < 250 => Event::Transferred(vec![roll; t.rx_len]),
            Action::Pause(_) if roll < 250 => Event::Paused,
            Action::Sample if roll < 250 => Event::Sampled(roll & 1 == 0),
            _ => Event::Sampled(true),
        }
    }
}

#[test]
fn bring_up_against_a_willing_chip() {
    let mut chip = Recorder::new(Scripted::new());
    chip.backend_mut().busy_polls = 2;
    let result = bring_up(&mut chip, 10);
    assert_eq!(
        result,
        Ok(CalibrationReport {
            if_filter: FilterOutcome::Completed,
            band_low: BandOutcome::Measured(CalibrationResult { success: true, raw_value: 0 }),
            band_high: BandOutcome::Measured(CalibrationResult { success: true, raw_value: 0 }),
            channel_read_back: Some(0xA0),
        })
    );
    assert_eq!(chip.backend().performed, 63 + 3 * 2);
}

#[test]
fn bring_up_stops_at_the_first_fault() {
    for fail_at in [0usize, 3, 46, 62] {
        let mut chip = Recorder::new(Scripted::new());
        chip.backend_mut().fail_at = Some(fail_at);
        assert_eq!(bring_up(&mut chip, 10), Err(InitError::Bus));
        assert_eq!(chip.into_inner().performed, fail_at + 1);
    }
}

#[test]
fn bring_up_against_the_loopback_times_out_and_completes() {
    let mut chip = Recorder::new(Loopback::new());
    let report = bring_up(&mut chip, 4).unwrap();
    let chip = chip.into_inner();
    // The register file never clears an enable bit, so every wait runs out.
    assert_eq!(report.if_filter, FilterOutcome::TimedOut);
    assert_eq!(report.band_low, BandOutcome::TimedOut);
    assert_eq!(report.band_high, BandOutcome::TimedOut);
    assert_eq!(report.channel_read_back, Some(0xA0));
    assert!(report.channel_persisted());
    assert_eq!(chip.peek(0x06), vec![0x54, 0x75, 0xC5, 0x2A]);
    assert_eq!(chip.peek(0x24), vec![0x13]);
    assert_eq!(chip.peek(0x25), vec![0x08]);
}

#[test]
fn bring_up_ends_within_its_budget_whatever_is_reported() {
    for seed in 0..200u32 {
        for bound in [0u32, 1, 7] {
            let mut backend = Recorder::new(Erratic { performed: 0, seed });
            let _ = bring_up(&mut backend, bound);
            let budget = 60 + 3 * (bound.max(1) as usize);
            assert!(backend.backend().performed <= budget);
        }
    }
}

#[test]
fn poll_frame_receives_on_the_active_channel_only() {
    let packet = BindPacket { transmitter_id: 0x11223344, receiver_id: 0, stage: 2 };
    let mut backend = Recorder::new(Scripted::new());
    backend.backend_mut().ready_on = 0x8B;
    backend.backend_mut().frame = packet.to_bytes();
    backend.backend_mut().frame.resize(37, 0);
    let mut scanner = ChannelScanner::new(vec![0x0C, 0x8B, 0x51], 1, 3).unwrap();
    let mut results = Vec::new();
    for _ in 0..3 {
        let channel = scanner.channel();
        results.push((channel, poll_frame(&mut scanner, &mut backend)));
        if channel == 0x8B {
            // Be heard once only, so that the scanner moves on.
            backend.backend_mut().ready_on = 0xFF;
            let _ = poll_frame(&mut scanner, &mut backend);
        }
    }
    assert_eq!(
        results,
        vec![
            (0x0C, Attempt::Timeout),
            (0x8B, Attempt::Packet(TransmitterPacket::Bind(packet))),
            (0x51, Attempt::Timeout),
        ]
    );
    assert_eq!(scanner.stage(), ScanStage::Standby);
}

#[test]
fn poll_frame_ends_within_its_budget_whatever_is_reported() {
    for seed in 0..200u32 {
        for bound in [0u32, 2, 9] {
            let mut backend = Recorder::new(Erratic { performed: 0, seed });
            let mut scanner = ChannelScanner::new(vec![1, 2, 3], 2, bound).unwrap();
            for attempt in 1..=5usize {
                let _ = poll_frame(&mut scanner, &mut backend);
                assert_eq!(scanner.stage(), ScanStage::Standby);
                assert!(backend.backend().performed <= attempt * (4 * bound as usize + 10));
            }
        }
    }
}

#[test]
fn poll_frame_reports_faults() {
    let mut backend = Recorder::new(Scripted::new());
    backend.backend_mut().fail_at = Some(2);
    let mut scanner = ChannelScanner::new(vec![7], 3, 3).unwrap();
    assert_eq!(poll_frame(&mut scanner, &mut backend), Attempt::BusError);
    assert_eq!(backend.backend().performed, 3);
    assert_eq!(scanner.idle_attempts(), 1);
    assert_eq!(poll_frame(&mut scanner, &mut backend), Attempt::Timeout);
}

#[test]
fn configure_runs_the_whole_script() {
    let link = Afhds2::new(10);
    let mut chip = Recorder::new(Loopback::new());
    assert_eq!(configure(&link, &mut chip), Ok(()));
    assert_eq!(chip.backend().peek(0x0B), vec![0x19]);
    assert_eq!(chip.backend().peek(0x13), vec![0x02]);
    assert_eq!(chip.backend().peek(0x12), Vec::<u8>::new());
    assert_eq!(chip.backend().peek(0x21), vec![0x43]);
    assert_eq!(chip.backend().peek(0x06), vec![0x54, 0x75, 0xC5, 0x2A]);
    let mut backend = Recorder::new(Scripted::new());
    assert_eq!(configure(&link, &mut backend), Ok(()));
    assert_eq!(backend.backend().performed, CONFIGURE_LEN);
}

#[test]
fn configure_stops_at_the_first_fault() {
    let link = Afhds2::new(10);
    for fail_at in [0usize, 1, 10, 18] {
        let mut backend = Recorder::new(Scripted::new());
        backend.backend_mut().fail_at = Some(fail_at);
        assert_eq!(configure(&link, &mut backend), Err(InitError::Bus));
        // No call is made after the one that failed.
        assert_eq!(backend.backend().performed, fail_at + 1);
    }
}

#[test]
fn loopback_as_a_backend() {
    let mut chip = Recorder::new(Loopback::new());
    assert_eq!(chip.perform(&Action::Pause(5)), Event::Paused);
    assert_eq!(chip.perform(&Action::Sample), Event::Sampled(false));
    assert_eq!(chip.perform(&Action::Halt), Event::Fault);
    let written = chip.perform(&Action::Transfer(a7105::bus::write(0x10, &[0x9E])));
    assert_eq!(written, Event::Transferred(vec![]));
    let read = chip.perform(&Action::Transfer(a7105::bus::read(0x10, 1)));
    assert_eq!(read, Event::Transferred(vec![0x9E]));
}
