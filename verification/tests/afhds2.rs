use a7105::afhds2::{Afhds2, CONFIGURE_LEN, RADIO_ID};
use a7105::report::InitError;
use a7105::bus::{strobe, Transaction};
use a7105::commands::Strobe;
use a7105::loopback::Loopback;
use a7105::radio::A7105;
use a7105::registers::IdData;
use a7105::step::{fits, Action, Event};

fn write_byte(addr: u8, value: u8) -> Action {
    Action::Transfer(Transaction { tx: vec![addr, value], rx_len: 0 })
}

#[test]
fn configure_radio_script() {
    let link = Afhds2::new(100);
    let script = link.configure_script();
    assert_eq!(script.len(), CONFIGURE_LEN);
    assert_eq!(
        script,
        vec![
            write_byte(0x00, 0x00),
            Action::Pause(50_000),
            write_byte(0x0B, 0x19),
            write_byte(0x01, 0x42),
            write_byte(0x03, 0x25),
            write_byte(0x04, 0x00),
            write_byte(0x09, 0x05),
            write_byte(0x0D, 0x05),
            write_byte(0x0F, 0x50),
            write_byte(0x13, 0x02),
            write_byte(0x17, 0x00),
            write_byte(0x18, 0x71),
            write_byte(0x19, 0x80),
            write_byte(0x1D, 0x32),
            write_byte(0x1F, 0x1F),
            write_byte(0x20, 0x13),
            write_byte(0x21, 0x43),
            write_byte(0x24, 0x00),
            Action::Transfer(Transaction { tx: vec![0x06, 0x54, 0x75, 0xC5, 0x2A], rx_len: 0 }),
        ]
    );
}

#[test]
fn configured_registers_read_back_from_the_loopback() {
    let link = Afhds2::from_radio(A7105::new(7));
    assert_eq!(link.radio(), A7105 { auto_clear_bound: 7, ready_bound: 2000 });
    let mut chip = Loopback::new();
    for action in link.configure_script() {
        if let Action::Transfer(t) = action {
            let reply = chip.exchange(&t);
            assert!(fits(&Event::Transferred(reply), &Action::Transfer(t)));
        }
    }
    assert_eq!(chip.peek(0x18), vec![0x71]);
    assert_eq!(chip.peek(0x1F), vec![0x1F]);
    assert_eq!(IdData::from_reply(&chip.peek(0x06)), Some(IdData { id: RADIO_ID }));
    assert_eq!(RADIO_ID, 0x5475C52A);
}

#[test]
fn radio_scripts() {
    let radio = A7105::new(3);
    assert_eq!(radio.auto_clear_bound, 3);
    assert_eq!(radio.ready_bound, 2000);
    assert_eq!(radio.set_channel(0x8B), Transaction { tx: vec![0x0F, 0x8B], rx_len: 0 });
    assert_eq!(
        radio.test_read_start(),
        vec![
            Transaction { tx: vec![0x0F, 0x00], rx_len: 0 },
            strobe(Strobe::Standby),
            Transaction { tx: vec![0x0F, 0x00], rx_len: 0 },
            strobe(Strobe::Rx),
        ]
    );
}

#[test]
fn events_fit_their_actions() {
    let transfer = Action::Transfer(Transaction { tx: vec![0x42], rx_len: 1 });
    assert!(fits(&Event::Transferred(vec![0]), &transfer));
    assert!(!fits(&Event::Transferred(vec![]), &transfer));
    assert!(!fits(&Event::Transferred(vec![0, 0]), &transfer));
    assert!(!fits(&Event::Paused, &transfer));
    assert!(!fits(&Event::Fault, &transfer));
    assert!(fits(&Event::Paused, &Action::Pause(5)));
    assert!(!fits(&Event::Sampled(true), &Action::Pause(5)));
    assert!(fits(&Event::Sampled(true), &Action::Sample));
    assert!(fits(&Event::Sampled(false), &Action::Sample));
    assert!(!fits(&Event::Fault, &Action::Sample));
    assert!(!fits(&Event::Paused, &Action::Halt));
    assert!(!fits(&Event::Fault, &Action::Halt));
}

#[test]
fn configuration_succeeds_when_every_step_is_answered() {
    let link = Afhds2::new(100);
    let script = link.configure_script();
    let mut run = link.configure_radio();
    for step in 0..CONFIGURE_LEN {
        assert!(!run.is_finished());
        assert_eq!(run.outcome(), None);
        assert_eq!(*run.action(), script[step]);
        let event = match run.action() {
            Action::Pause(_) => Event::Paused,
            _ => Event::Transferred(vec![]),
        };
        run.advance(&event);
    }
    assert!(run.is_finished());
    assert_eq!(run.outcome(), Some(Ok(())));
    assert_eq!(*run.action(), Action::Halt);
    run.advance(&Event::Fault);
    assert_eq!(run.outcome(), Some(Ok(())));
}

#[test]
fn configuration_stops_at_the_first_failure() {
    let link = Afhds2::new(100);
    for fail_at in 0..CONFIGURE_LEN {
        let mut run = link.configure_radio();
        for _ in 0..fail_at {
            let event = match run.action() {
                Action::Pause(_) => Event::Paused,
                _ => Event::Transferred(vec![]),
            };
            run.advance(&event);
        }
        assert_eq!(run.outcome(), None);
        run.advance(&Event::Fault);
        assert!(run.is_finished());
        assert_eq!(run.outcome(), Some(Err(InitError::Bus)));
        assert_eq!(*run.action(), Action::Halt);
        // What is reported after the failure changes nothing.
        run.advance(&Event::Transferred(vec![]));
        run.advance(&Event::Paused);
        assert_eq!(run.outcome(), Some(Err(InitError::Bus)));
        assert_eq!(*run.action(), Action::Halt);
    }
}

#[test]
fn configuration_takes_an_improper_result_as_a_failure() {
    let link = Afhds2::new(100);
    let mut run = link.configure_radio();
    // The reset reads nothing: a reply of one byte is no proper result.
    run.advance(&Event::Transferred(vec![0]));
    assert_eq!(run.outcome(), Some(Err(InitError::Bus)));
    let mut run = link.configure_radio();
    run.advance(&Event::Transferred(vec![]));
    // The second step is the pause.
    run.advance(&Event::Transferred(vec![]));
    assert_eq!(run.outcome(), Some(Err(InitError::Bus)));
}
