use a7105::bus::{
    address_byte, command, read, strobe, strobe_then_read, wait_auto_clear, write_byte,
    write_then_strobe, Access, AutoClearWait, Transaction, WaitStatus,
};
use a7105::commands::{Commands, Strobe};
use a7105::loopback::Loopback;

const STROBES: [(Strobe, u8); 8] = [
    (Strobe::Sleep, 0x80),
    (Strobe::Idle, 0x90),
    (Strobe::Standby, 0xA0),
    (Strobe::Pll, 0xB0),
    (Strobe::Rx, 0xC0),
    (Strobe::Tx, 0xD0),
    (Strobe::FifoWritePointerReset, 0xE0),
    (Strobe::FifoReadPointerReset, 0xF0),
];

#[test]
fn strobe_opcodes() {
    for (cmd, opcode) in STROBES {
        let byte: u8 = cmd.into();
        assert_eq!(byte, opcode);
        assert_eq!(strobe(cmd), Transaction { tx: vec![opcode], rx_len: 0 });
        assert_eq!(command(Commands::Strobe(cmd)), Transaction { tx: vec![opcode], rx_len: 0 });
    }
}

#[test]
fn reset_is_a_write_of_zero_to_register_zero() {
    assert_eq!(command(Commands::Reset), Transaction { tx: vec![0x00, 0x00], rx_len: 0 });
}

#[test]
fn bit_six_marks_a_read() {
    for addr in 0u8..=255 {
        let w = address_byte(addr, Access::Write);
        let r = address_byte(addr, Access::Read);
        assert_eq!(w & 0x40, 0);
        assert_eq!(r & 0x40, 0x40);
        assert_eq!(w & 0x80, 0);
        assert_eq!(r & 0x80, 0);
        assert_eq!(w & 0x3F, addr & 0x3F);
        assert_eq!(r & 0x3F, addr & 0x3F);
    }
    assert_eq!(address_byte(0x0F, Access::Write), 0x0F);
    assert_eq!(address_byte(0x0F, Access::Read), 0x4F);
    assert_eq!(address_byte(0xFF, Access::Write), 0x3F);
    assert_eq!(address_byte(0xC2, Access::Read), 0x42);
}

#[test]
fn address_bytes_are_never_strobes() {
    for addr in 0u8..=255 {
        for (_, opcode) in STROBES {
            assert_ne!(address_byte(addr, Access::Write), opcode);
            assert_ne!(address_byte(addr, Access::Read), opcode);
        }
    }
}

#[test]
fn write_frames() {
    assert_eq!(a7105::bus::write(0x0F, &[0xA0]), Transaction { tx: vec![0x0F, 0xA0], rx_len: 0 });
    assert_eq!(
        a7105::bus::write(0x06, &[0x54, 0x75, 0xC5, 0x2A]),
        Transaction { tx: vec![0x06, 0x54, 0x75, 0xC5, 0x2A], rx_len: 0 }
    );
    assert_eq!(a7105::bus::write(0x4F, &[1]), Transaction { tx: vec![0x0F, 1], rx_len: 0 });
    assert_eq!(a7105::bus::write(0x3F, &[]), Transaction { tx: vec![0x3F], rx_len: 0 });
}

#[test]
fn write_byte_frames() {
    assert_eq!(write_byte(0x0F, 0xA0), Transaction { tx: vec![0x0F, 0xA0], rx_len: 0 });
    assert_eq!(write_byte(0x00, 0x00), Transaction { tx: vec![0x00, 0x00], rx_len: 0 });
    assert_eq!(write_byte(0x7F, 0xFF), Transaction { tx: vec![0x3F, 0xFF], rx_len: 0 });
    assert_eq!(write_byte(0x24, 0x13), a7105::bus::write(0x24, &[0x13]));
}

#[test]
fn read_frames() {
    assert_eq!(read(0x25, 1), Transaction { tx: vec![0x65], rx_len: 1 });
    assert_eq!(read(0x05, 37), Transaction { tx: vec![0x45], rx_len: 37 });
    assert_eq!(read(0x80, 0), Transaction { tx: vec![0x40], rx_len: 0 });
}

#[test]
fn combined_frames() {
    assert_eq!(
        write_then_strobe(Strobe::Rx, 0x0F, &[0x8A]),
        Transaction { tx: vec![0x0F, 0x8A, 0xC0], rx_len: 0 }
    );
    assert_eq!(
        write_then_strobe(Strobe::Standby, 0x0F, &[]),
        Transaction { tx: vec![0x0F, 0xA0], rx_len: 0 }
    );
    assert_eq!(
        strobe_then_read(Strobe::FifoReadPointerReset, 0x05, 37),
        Transaction { tx: vec![0xF0, 0x45], rx_len: 37 }
    );
}

#[test]
fn wait_succeeds_on_first_clear_poll() {
    for bound in [0u32, 1, 2, 1000, u32::MAX] {
        let mut wait = wait_auto_clear(0x02, 0x01, bound);
        assert_eq!(wait.status, WaitStatus::Pending);
        assert_eq!(wait.poll(), Transaction { tx: vec![0x42], rx_len: 1 });
        assert_eq!(wait.observe(0xFE), WaitStatus::Cleared);
        assert_eq!(wait.remaining, bound);
    }
}

#[test]
fn wait_times_out_when_the_bit_never_clears() {
    for bound in [1u32, 2, 5, 17] {
        let mut wait = wait_auto_clear(0x02, 0x02, bound);
        for _ in 1..bound {
            assert_eq!(wait.observe(0x02), WaitStatus::Pending);
        }
        assert_eq!(wait.observe(0xFF), WaitStatus::TimedOut);
        assert_eq!(wait.observe(0x00), WaitStatus::TimedOut);
        assert_eq!(wait.remaining, 0);
    }
    let mut wait = wait_auto_clear(0x02, 0x02, 0);
    assert_eq!(wait.observe(0x02), WaitStatus::TimedOut);
}

#[test]
fn wait_clears_on_the_last_poll_allowed() {
    let mut wait = wait_auto_clear(0x02, 0x01, 3);
    assert_eq!(wait.observe(0x01), WaitStatus::Pending);
    assert_eq!(wait.observe(0x03), WaitStatus::Pending);
    assert_eq!(wait.observe(0x02), WaitStatus::Cleared);
    assert_eq!(wait.observe(0x01), WaitStatus::Cleared);
    assert_eq!(
        wait,
        AutoClearWait { addr: 0x02, mask: 0x01, remaining: 1, status: WaitStatus::Cleared }
    );
}

#[test]
fn wait_with_a_mask_of_several_bits() {
    let mut wait = wait_auto_clear(0x02, 0x06, 10);
    assert_eq!(wait.observe(0x04), WaitStatus::Pending);
    assert_eq!(wait.observe(0x02), WaitStatus::Pending);
    assert_eq!(wait.observe(0x01), WaitStatus::Cleared);
}

#[test]
fn loopback_returns_what_was_written() {
    for addr in 0x00u8..=0x3F {
        let mut chip = Loopback::new();
        let bytes = vec![addr, addr.wrapping_mul(7), 0xFF, 0x00, 0x5A];
        let reply = chip.exchange(&a7105::bus::write(addr, &bytes));
        assert_eq!(reply, Vec::<u8>::new());
        let reply = chip.exchange(&read(addr, bytes.len()));
        assert_eq!(reply, bytes);
        assert_eq!(chip.peek(addr), bytes);
        let other = (addr + 1) & 0x3F;
        assert_eq!(chip.exchange(&read(other, 2)), vec![0, 0]);
    }
}

#[test]
fn loopback_cuts_and_fills_replies() {
    let mut chip = Loopback::new();
    chip.exchange(&a7105::bus::write(0x06, &[0x54, 0x75, 0xC5, 0x2A]));
    assert_eq!(chip.exchange(&read(0x06, 2)), vec![0x54, 0x75]);
    assert_eq!(chip.exchange(&read(0x06, 6)), vec![0x54, 0x75, 0xC5, 0x2A, 0, 0]);
    assert_eq!(chip.exchange(&read(0x06, 0)), Vec::<u8>::new());
    chip.exchange(&a7105::bus::write(0x06, &[0x01]));
    assert_eq!(chip.exchange(&read(0x06, 4)), vec![0x01, 0, 0, 0]);
}

#[test]
fn loopback_ignores_strobes_and_empty_frames() {
    let mut chip = Loopback::new();
    chip.exchange(&a7105::bus::write(0x20, &[0x13]));
    assert_eq!(chip.exchange(&strobe(Strobe::Standby)), Vec::<u8>::new());
    assert_eq!(chip.exchange(&Transaction { tx: vec![], rx_len: 3 }), vec![0, 0, 0]);
    assert_eq!(chip.exchange(&Transaction { tx: vec![0xA0, 0x55], rx_len: 1 }), vec![0]);
    for addr in 0x00u8..=0x3F {
        let expected = if addr == 0x20 { vec![0x13] } else { vec![] };
        assert_eq!(chip.peek(addr), expected);
    }
    assert_eq!(chip.peek(0x60), vec![0x13]);
}
