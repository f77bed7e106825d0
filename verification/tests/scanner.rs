use a7105::bus::{read, strobe, Transaction};
use a7105::commands::Strobe;
use a7105::packet::{BindPacket, SticksPacket, TransmitterPacket};
use a7105::radio::A7105;
use a7105::ready::{DataReadyWait, ReadyStage, DEFAULT_READY_BOUND};
use a7105::scanner::{
    Attempt, ChannelScanner, ScanStage, BIND_CHANNELS, DEFAULT_IDLE_ATTEMPTS, FRAME_LEN,
};
use a7105::step::{fits, Action, Event};

fn sticks_packet() -> SticksPacket {
    let mut sticks = [0u16; 14];
    for (i, value) in sticks.iter_mut().enumerate() {
        *value = 1000 + i as u16;
    }
    SticksPacket { transmitter_id: 0x01020304, receiver_id: 0x05060708, sticks }
}

/// A bus on which a transmitter is heard on one channel only: the data-ready
/// signal rises and falls while the channel register holds `active`, and
/// stays low on every other channel.
struct Air {
    active: u8,
    channel: u8,
    receiving: bool,
    raised: bool,
    status: u8,
    frame: Vec<u8>,
    log: Vec<Action>,
}

impl Air {
    fn new(active: u8) -> Air {
        Air {
            active,
            channel: 0,
            receiving: false,
            raised: false,
            status: 0x00,
            frame: sticks_packet().to_bytes(),
            log: Vec::new(),
        }
    }

    fn perform(&mut self, action: &Action) -> Event {
        self.log.push(action.clone());
        match action {
            Action::Transfer(t) => {
                let first = t.tx[0];
                if first == 0xC0 {
                    self.receiving = true;
                    self.raised = false;
                    Event::Transferred(vec![])
                } else if first & 0x80 != 0 {
                    if first == 0xA0 {
                        self.receiving = false;
                    }
                    Event::Transferred(vec![])
                } else if first == 0x0F {
                    self.channel = t.tx[1];
                    Event::Transferred(vec![])
                } else if first == 0x40 {
                    Event::Transferred(vec![self.status])
                } else if first == 0x45 {
                    let mut bytes = self.frame.clone();
                    bytes.resize(t.rx_len, 0);
                    Event::Transferred(bytes)
                } else {
                    Event::Transferred(vec![0; t.rx_len])
                }
            }
            Action::Pause(_) => Event::Paused,
            Action::Sample => {
                if self.receiving && self.channel == self.active && !self.raised {
                    self.raised = true;
                    Event::Sampled(true)
                } else {
                    Event::Sampled(false)
                }
            }
            Action::Halt => Event::Fault,
        }
    }
}

fn attempt(scanner: &mut ChannelScanner, air: &mut Air) -> Attempt {
    for _ in 0..100_000 {
        let action = scanner.action();
        let event = air.perform(&action);
        assert!(fits(&event, &action));
        if let Some(result) = scanner.advance(&event) {
            return result;
        }
    }
    panic!("attempt did not end");
}

#[test]
fn frames_decode_only_on_the_active_channel() {
    let mut scanner = ChannelScanner::new(vec![0x0C, 0x8B, 0x20], 2, 3).unwrap();
    let mut air = Air::new(0x8B);
    let mut heard = Vec::new();
    for _ in 0..12 {
        let channel = scanner.channel();
        let result = attempt(&mut scanner, &mut air);
        assert_eq!(air.channel, channel);
        if channel == 0x8B {
            assert_eq!(result, Attempt::Packet(TransmitterPacket::Sticks(sticks_packet())));
        } else {
            assert_eq!(result, Attempt::Timeout);
        }
        heard.push((channel, result == Attempt::Timeout));
    }
    // Two idle attempts on 0x0C, then the scanner stays where it hears packets.
    assert_eq!(heard[0], (0x0C, true));
    assert_eq!(heard[1], (0x0C, true));
    for entry in &heard[2..] {
        assert_eq!(*entry, (0x8B, false));
    }
}

#[test]
fn scanner_times_out_on_every_silent_channel() {
    let mut scanner = ChannelScanner::new(vec![0x0C, 0x8B, 0x20], 1, 2).unwrap();
    let mut air = Air::new(0x8B);
    let mut decoded_on = Vec::new();
    let mut timed_out_on = Vec::new();
    for round in 0..9 {
        let channel = scanner.channel();
        match attempt(&mut scanner, &mut air) {
            Attempt::Packet(_) => {
                decoded_on.push(channel);
                // Let the transmitter fall silent so that the scanner moves on.
                air.active = 0xFF;
            }
            Attempt::Timeout => {
                timed_out_on.push(channel);
                if round % 3 == 2 {
                    air.active = 0x8B;
                }
            }
            other => panic!("unexpected result {:?}", other),
        }
    }
    assert!(!decoded_on.is_empty());
    assert!(decoded_on.iter().all(|c| *c == 0x8B));
    assert!(timed_out_on.contains(&0x0C));
    assert!(timed_out_on.contains(&0x20));
}

#[test]
fn attempt_follows_the_prescribed_steps() {
    let mut scanner = ChannelScanner::new(vec![0x8B], 3, 5).unwrap();
    let mut air = Air::new(0x8B);
    let result = attempt(&mut scanner, &mut air);
    assert_eq!(result, Attempt::Packet(TransmitterPacket::Sticks(sticks_packet())));
    assert_eq!(
        air.log,
        vec![
            Action::Transfer(strobe(Strobe::Standby)),
            Action::Transfer(Transaction { tx: vec![0x0F, 0x8B], rx_len: 0 }),
            Action::Transfer(strobe(Strobe::Rx)),
            Action::Transfer(strobe(Strobe::FifoReadPointerReset)),
            Action::Sample,
            Action::Sample,
            Action::Transfer(read(0x00, 1)),
            Action::Transfer(read(0x05, 37)),
        ]
    );
    assert_eq!(FRAME_LEN, 37);
    assert_eq!(scanner.stage(), ScanStage::Standby);
    assert_eq!(scanner.idle_attempts(), 0);
}

#[test]
fn timeout_takes_bound_plus_one_samples() {
    for bound in [0u32, 1, 4] {
        let mut scanner = ChannelScanner::new(vec![0x01], 3, bound).unwrap();
        let mut air = Air::new(0x8B);
        assert_eq!(attempt(&mut scanner, &mut air), Attempt::Timeout);
        let samples = air.log.iter().filter(|a| **a == Action::Sample).count();
        let pauses = air.log.iter().filter(|a| **a == Action::Pause(100)).count();
        assert_eq!(samples as u32, bound + 1);
        assert_eq!(pauses as u32, bound + 1);
        assert_eq!(air.log.len() as u32, 4 + 2 * (bound + 1));
        assert_eq!(scanner.idle_attempts(), 1);
    }
}

#[test]
fn channels_rotate_after_idle_attempts() {
    let mut scanner = ChannelScanner::new(vec![3, 5, 7], 2, 0).unwrap();
    let mut air = Air::new(0xFF);
    let mut visited = Vec::new();
    for _ in 0..14 {
        visited.push((scanner.channel(), scanner.idle_attempts()));
        assert_eq!(attempt(&mut scanner, &mut air), Attempt::Timeout);
    }
    assert_eq!(
        visited,
        vec![
            (3, 0),
            (3, 1),
            (5, 0),
            (5, 1),
            (7, 0),
            (7, 1),
            (3, 0),
            (3, 1),
            (5, 0),
            (5, 1),
            (7, 0),
            (7, 1),
            (3, 0),
            (3, 1),
        ]
    );
}

#[test]
fn zero_patience_leaves_after_one_attempt() {
    let mut scanner = ChannelScanner::new(vec![1, 2], 0, 0).unwrap();
    let mut air = Air::new(0xFF);
    let mut visited = Vec::new();
    for _ in 0..5 {
        visited.push(scanner.channel());
        attempt(&mut scanner, &mut air);
        assert_eq!(scanner.idle_attempts(), 0);
    }
    assert_eq!(visited, vec![1, 2, 1, 2, 1]);
}

#[test]
fn packet_resets_the_idle_count() {
    let mut scanner = ChannelScanner::new(vec![0x10, 0x11], 3, 1).unwrap();
    let mut air = Air::new(0xFF);
    assert_eq!(attempt(&mut scanner, &mut air), Attempt::Timeout);
    assert_eq!(attempt(&mut scanner, &mut air), Attempt::Timeout);
    assert_eq!((scanner.channel(), scanner.idle_attempts()), (0x10, 2));
    air.active = 0x10;
    assert!(matches!(attempt(&mut scanner, &mut air), Attempt::Packet(_)));
    assert_eq!((scanner.channel(), scanner.idle_attempts()), (0x10, 0));
    air.active = 0xFF;
    attempt(&mut scanner, &mut air);
    attempt(&mut scanner, &mut air);
    assert_eq!((scanner.channel(), scanner.idle_attempts()), (0x10, 2));
    attempt(&mut scanner, &mut air);
    assert_eq!((scanner.channel(), scanner.idle_attempts()), (0x11, 0));
}

#[test]
fn damaged_frames_are_discarded() {
    for status in [0x20u8, 0x40, 0x60, 0xFF, 0x21] {
        let mut scanner = ChannelScanner::new(vec![0x8B], 5, 2).unwrap();
        let mut air = Air::new(0x8B);
        air.status = status;
        assert_eq!(attempt(&mut scanner, &mut air), Attempt::Damaged(status));
        assert_eq!(*air.log.last().unwrap(), Action::Transfer(read(0x00, 1)));
        assert_eq!(scanner.idle_attempts(), 1);
        assert_eq!(scanner.stage(), ScanStage::Standby);
    }
    for status in [0x00u8, 0x01, 0x1F, 0x9F] {
        let mut scanner = ChannelScanner::new(vec![0x8B], 5, 2).unwrap();
        let mut air = Air::new(0x8B);
        air.status = status;
        assert!(matches!(attempt(&mut scanner, &mut air), Attempt::Packet(_)));
    }
}

#[test]
fn unknown_frames_are_mismatches() {
    let mut scanner = ChannelScanner::new(vec![0x8B], 5, 2).unwrap();
    let mut air = Air::new(0x8B);
    air.frame = vec![0x56; 37];
    assert_eq!(attempt(&mut scanner, &mut air), Attempt::DecodeMismatch);
    assert_eq!(scanner.idle_attempts(), 1);
    air.frame = vec![];
    assert_eq!(attempt(&mut scanner, &mut air), Attempt::DecodeMismatch);
    assert_eq!(scanner.idle_attempts(), 2);
}

#[test]
fn bind_frames_are_decoded() {
    let mut scanner = ChannelScanner::bind(DEFAULT_IDLE_ATTEMPTS, 2);
    assert_eq!(BIND_CHANNELS, [0x0C, 0x8B]);
    assert_eq!(scanner.channel(), 0x0C);
    let mut air = Air::new(0x0C);
    let packet = BindPacket { transmitter_id: 7, receiver_id: 0xFFFF_FFFF, stage: 1 };
    air.frame = packet.to_bytes();
    assert_eq!(
        attempt(&mut scanner, &mut air),
        Attempt::Packet(TransmitterPacket::Bind(packet))
    );
}

#[test]
fn faults_end_the_attempt_and_the_scan_goes_on() {
    let mut scanner = ChannelScanner::new(vec![0x8B, 0x0C], 2, 2).unwrap();
    assert_eq!(scanner.advance(&Event::Fault), Some(Attempt::BusError));
    assert_eq!((scanner.channel(), scanner.idle_attempts()), (0x8B, 1));
    assert_eq!(scanner.stage(), ScanStage::Standby);
    assert_eq!(scanner.advance(&Event::Transferred(vec![])), None);
    assert_eq!(scanner.stage(), ScanStage::SetChannel);
    assert_eq!(scanner.advance(&Event::Paused), Some(Attempt::BusError));
    assert_eq!((scanner.channel(), scanner.idle_attempts()), (0x0C, 0));
    let mut air = Air::new(0x0C);
    assert!(matches!(attempt(&mut scanner, &mut air), Attempt::Packet(_)));
    // A reply of the wrong length is no proper result either.
    for _ in 0..4 {
        let action = scanner.action();
        let event = air.perform(&action);
        assert_eq!(scanner.advance(&event), None);
    }
    assert_eq!(scanner.advance(&Event::Sampled(true)), None);
    assert_eq!(scanner.advance(&Event::Sampled(false)), None);
    assert_eq!(scanner.stage(), ScanStage::ReadStatus);
    assert_eq!(scanner.advance(&Event::Transferred(vec![0, 0])), Some(Attempt::BusError));
}

#[test]
fn scanner_needs_a_channel() {
    assert!(ChannelScanner::new(vec![], 3, 3).is_none());
    assert!(ChannelScanner::new(vec![0], 0, 0).is_some());
}

#[test]
fn full_sweep_covers_every_channel_once() {
    let radio = A7105::new(50);
    let mut scanner = radio.test_read();
    let mut visited = Vec::new();
    for _ in 0..161 {
        visited.push(scanner.channel());
        for _ in 0..DEFAULT_IDLE_ATTEMPTS {
            assert_eq!(scanner.advance(&Event::Fault), Some(Attempt::BusError));
        }
    }
    let expected: Vec<u8> = (0x00..=0xA0).collect();
    assert_eq!(visited, expected);
    assert_eq!(scanner.channel(), 0x00);
    assert_eq!(DEFAULT_IDLE_ATTEMPTS, 15);
}

#[test]
fn ready_wait_sees_rise_then_fall() {
    let mut wait = A7105::new(1).wait_gpio();
    assert_eq!(wait, DataReadyWait::new(DEFAULT_READY_BOUND));
    assert_eq!(DEFAULT_READY_BOUND, 2000);
    assert_eq!(wait.action(), Action::Sample);
    wait.advance(&Event::Sampled(false));
    assert_eq!(wait.action(), Action::Pause(100));
    wait.advance(&Event::Paused);
    assert_eq!(wait.left, 1999);
    wait.advance(&Event::Sampled(true));
    assert_eq!(wait.stage, ReadyStage::SampleFall);
    assert_eq!(wait.left, 2000);
    wait.advance(&Event::Sampled(true));
    assert_eq!(wait.action(), Action::Pause(1));
    wait.advance(&Event::Paused);
    assert!(!wait.is_finished());
    wait.advance(&Event::Sampled(false));
    assert!(wait.is_finished());
    assert!(wait.is_ready());
    assert_eq!(wait.action(), Action::Halt);
    wait.advance(&Event::Fault);
    assert!(wait.is_ready());
}

#[test]
fn ready_wait_gives_up_in_either_phase() {
    let mut wait = DataReadyWait::new(2000);
    let mut samples = 0;
    while !wait.is_finished() {
        match wait.action() {
            Action::Sample => {
                samples += 1;
                wait.advance(&Event::Sampled(false));
            }
            Action::Pause(micros) => {
                assert_eq!(micros, 100);
                wait.advance(&Event::Paused);
            }
            other => panic!("unexpected action {:?}", other),
        }
    }
    assert_eq!(samples, 2001);
    assert_eq!(wait.stage, ReadyStage::TimedOut);
    assert!(!wait.is_ready());

    let mut wait = DataReadyWait::new(3);
    wait.advance(&Event::Sampled(true));
    let mut samples = 0;
    while !wait.is_finished() {
        match wait.action() {
            Action::Sample => {
                samples += 1;
                wait.advance(&Event::Sampled(true));
            }
            Action::Pause(micros) => {
                assert_eq!(micros, 1);
                wait.advance(&Event::Paused);
            }
            other => panic!("unexpected action {:?}", other),
        }
    }
    assert_eq!(samples, 4);
    assert_eq!(wait.stage, ReadyStage::TimedOut);
}

#[test]
fn ready_wait_fails_on_a_fault() {
    let mut wait = DataReadyWait::new(5);
    wait.advance(&Event::Fault);
    assert_eq!(wait.stage, ReadyStage::Failed);
    assert!(wait.is_finished());
    let mut wait = DataReadyWait::new(5);
    wait.advance(&Event::Paused);
    assert_eq!(wait.stage, ReadyStage::Failed);
    let mut wait = DataReadyWait::new(5);
    wait.advance(&Event::Sampled(false));
    wait.advance(&Event::Sampled(false));
    assert_eq!(wait.stage, ReadyStage::Failed);
}
