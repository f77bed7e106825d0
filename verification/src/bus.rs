//! Framing of strobe, read and write transactions on the serial bus.
//!
//! A [`Transaction`] is the unit that must not be split: chip select is
//! asserted before its first byte and released after its last. The bus keeps
//! no copy of any register; every read is a new transaction.

use vstd::prelude::*;
use crate::commands::{Commands, Strobe};

verus! {

/// Bit 6 of an address byte: set for a read, clear for a write.
pub const READ_FLAG: u8 = 0x40;

/// The low six bits of an address byte: the register's address.
pub const ADDRESS_MASK: u8 = 0x3F;

/// Bit 7 of the first byte of a transaction: set for a strobe.
pub const STROBE_FLAG: u8 = 0x80;

/// Direction of a register access.
#[derive(Clone, Copy, Debug, PartialEq, Eq, Structural)]
pub enum Access {
    Read,
    Write,
}

/// One chip-select window: send `tx`, then clock in `rx_len` bytes.
#[derive(Clone, Debug, PartialEq, Eq)]
pub struct Transaction {
    /// Bytes to send, first byte first.
    pub tx: Vec<u8>,
    /// Number of bytes to read once `tx` has been sent.
    pub rx_len: usize,
}

/// A transaction as a mathematical value.
pub struct Exchange {
    pub sent: Seq<u8>,
    pub reply_len: nat,
}

impl View for Transaction {
    type V = Exchange;

    open spec fn view(&self) -> Exchange {
        Exchange { sent: self.tx@, reply_len: self.rx_len as nat }
    }
}

/// The address byte that opens an access to register `addr`.
pub open spec fn address_byte_of(addr: u8, access: Access) -> u8 {
    match access {
        Access::Write => addr & ADDRESS_MASK,
        Access::Read => (addr & ADDRESS_MASK) | READ_FLAG,
    }
}

/// A lone strobe.
pub open spec fn strobe_exchange(cmd: Strobe) -> Exchange {
    Exchange { sent: seq![cmd.opcode()], reply_len: 0 }
}

/// The address byte with bit 6 clear, then the payload.
pub open spec fn write_exchange(addr: u8, bytes: Seq<u8>) -> Exchange {
    Exchange { sent: seq![address_byte_of(addr, Access::Write)] + bytes, reply_len: 0 }
}

/// The address byte with bit 6 set, then `len` bytes read back.
pub open spec fn read_exchange(addr: u8, len: nat) -> Exchange {
    Exchange { sent: seq![address_byte_of(addr, Access::Read)], reply_len: len }
}

/// A register write followed by a strobe in the same chip-select window.
pub open spec fn write_then_strobe_exchange(cmd: Strobe, addr: u8, bytes: Seq<u8>) -> Exchange {
    Exchange {
        sent: (seq![address_byte_of(addr, Access::Write)] + bytes).push(cmd.opcode()),
        reply_len: 0,
    }
}

/// A strobe followed by a register read in the same chip-select window.
pub open spec fn strobe_then_read_exchange(cmd: Strobe, addr: u8, len: nat) -> Exchange {
    Exchange { sent: seq![cmd.opcode(), address_byte_of(addr, Access::Read)], reply_len: len }
}

/// What a command puts on the bus: a strobe travels as its opcode, a reset as
/// a write of zero to register zero.
pub open spec fn command_exchange(cmd: Commands) -> Exchange {
    match cmd {
        Commands::Strobe(s) => strobe_exchange(s),
        Commands::Reset => write_exchange(0x00, seq![0x00u8]),
    }
}

/// Builds the address byte for an access to register `addr`. Only the low six
/// bits of `addr` are used.
pub fn address_byte(addr: u8, access: Access) -> (byte: u8)
    ensures
        byte == address_byte_of(addr, access),
        byte & ADDRESS_MASK == addr & ADDRESS_MASK,
        byte & STROBE_FLAG == 0,
        (byte & READ_FLAG != 0) <==> access == Access::Read,
{
    assert((addr & 0x3F) & 0x3F == addr & 0x3F && (addr & 0x3F) & 0x80 == 0 && (addr & 0x3F) & 0x40
        == 0) by (bit_vector);
    assert(((addr & 0x3F) | 0x40) & 0x3F == addr & 0x3F && ((addr & 0x3F) | 0x40) & 0x80 == 0 && ((
    addr & 0x3F) | 0x40) & 0x40 != 0) by (bit_vector);
    match access {
        Access::Write => addr & ADDRESS_MASK,
        Access::Read => (addr & ADDRESS_MASK) | READ_FLAG,
    }
}

/// The transaction that sends the strobe `cmd`.
pub fn strobe(cmd: Strobe) -> (t: Transaction)
    ensures
        t@ == strobe_exchange(cmd),
{
    let opcode: u8 = cmd.into();
    let t = Transaction { tx: vec![opcode], rx_len: 0 };
    assert(t.tx@ =~= seq![cmd.opcode()]);
    t
}

/// The transaction that writes `bytes` to register `addr`.
pub fn write(addr: u8, bytes: &[u8]) -> (t: Transaction)
    ensures
        t@ == write_exchange(addr, bytes@),
{
    let mut tx: Vec<u8> = vec![address_byte(addr, Access::Write)];
    let ghost head = tx@;
    let mut i: usize = 0;
    while i < bytes.len()
        invariant
            i <= bytes@.len(),
            tx@ == head + bytes@.take(i as int),
        decreases bytes@.len() - i,
    {
        tx.push(bytes[i]);
        assert(bytes@.take(i + 1) =~= bytes@.take(i as int).push(bytes@[i as int]));
        assert(tx@ =~= head + bytes@.take(i + 1));
        i += 1;
    }
    assert(bytes@.take(i as int) =~= bytes@);
    assert(head =~= seq![address_byte_of(addr, Access::Write)]);
    Transaction { tx, rx_len: 0 }
}

/// The transaction that writes the one byte `value` to register `addr`.
pub fn write_byte(addr: u8, value: u8) -> (t: Transaction)
    ensures
        t@ == write_exchange(addr, seq![value]),
{
    let payload: [u8; 1] = [value];
    assert(payload@ =~= seq![value]);
    write(addr, payload.as_slice())
}

/// The transaction that reads `len` bytes from register `addr`.
pub fn read(addr: u8, len: usize) -> (t: Transaction)
    ensures
        t@ == read_exchange(addr, len as nat),
{
    let t = Transaction { tx: vec![address_byte(addr, Access::Read)], rx_len: len };
    assert(t.tx@ =~= seq![address_byte_of(addr, Access::Read)]);
    t
}

/// The transaction that writes `bytes` to register `addr` and sends `cmd`
/// before chip select is released.
pub fn write_then_strobe(cmd: Strobe, addr: u8, bytes: &[u8]) -> (t: Transaction)
    ensures
        t@ == write_then_strobe_exchange(cmd, addr, bytes@),
{
    let mut t = write(addr, bytes);
    let opcode: u8 = cmd.into();
    t.tx.push(opcode);
    t
}

/// The transaction that sends `cmd` and reads `len` bytes from register
/// `addr` before chip select is released.
pub fn strobe_then_read(cmd: Strobe, addr: u8, len: usize) -> (t: Transaction)
    ensures
        t@ == strobe_then_read_exchange(cmd, addr, len as nat),
{
    let opcode: u8 = cmd.into();
    let t = Transaction { tx: vec![opcode, address_byte(addr, Access::Read)], rx_len: len };
    assert(t.tx@ =~= seq![cmd.opcode(), address_byte_of(addr, Access::Read)]);
    t
}

/// The transaction that sends a command: a strobe, or the software reset.
pub fn command(cmd: Commands) -> (t: Transaction)
    ensures
        t@ == command_exchange(cmd),
{
    match cmd {
        Commands::Strobe(s) => strobe(s),
        Commands::Reset => write_byte(0x00, 0x00),
    }
}

/// The first byte of a transaction tells its kind: bit 7 marks a strobe, and among
/// the others bit 6 marks a read. So no address byte is ever taken for a
/// strobe, and no write for a read.
pub proof fn lemma_first_byte_kinds(cmd: Strobe, addr: u8, access: Access)
    ensures
        cmd.opcode() & STROBE_FLAG == STROBE_FLAG,
        address_byte_of(addr, access) & STROBE_FLAG == 0,
        address_byte_of(addr, access) != cmd.opcode(),
        (address_byte_of(addr, access) & READ_FLAG == READ_FLAG) <==> access == Access::Read,
        (address_byte_of(addr, access) & READ_FLAG == 0) <==> access == Access::Write,
        address_byte_of(addr, access) & ADDRESS_MASK == addr & ADDRESS_MASK,
{
    crate::commands::lemma_opcode_shape(cmd);
    assert((addr & 0x3F) & 0x3F == addr & 0x3F && (addr & 0x3F) & 0x80 == 0 && (addr & 0x3F) & 0x40
        == 0) by (bit_vector);
    assert(((addr & 0x3F) | 0x40) & 0x3F == addr & 0x3F && ((addr & 0x3F) | 0x40) & 0x80 == 0 && ((
    addr & 0x3F) | 0x40) & 0x40 == 0x40) by (bit_vector);
}

/// For an address within `0x00..=0x3F` the write byte is the address itself
/// and the read byte is the address plus `0x40`.
pub proof fn lemma_address_in_range(addr: u8)
    requires
        addr <= ADDRESS_MASK,
    ensures
        address_byte_of(addr, Access::Write) == addr,
        address_byte_of(addr, Access::Read) == addr + 0x40,
{
    assert(addr <= 0x3F ==> addr & 0x3F == addr && (addr & 0x3F) | 0x40 == addr + 0x40)
        by (bit_vector);
}

/// Where a bounded wait stands.
#[derive(Clone, Copy, Debug, PartialEq, Eq, Structural)]
pub enum WaitStatus {
    /// The awaited condition has not been seen and polls are left.
    Pending,
    /// The awaited condition was seen.
    Cleared,
    /// The bound was used up without seeing the condition.
    TimedOut,
}

/// A bounded wait for the chip to clear the bits `mask` of register `addr`.
///
/// The register is polled at least once. A poll that finds the bits clear
/// ends the wait with [`WaitStatus::Cleared`]; the poll that uses up the
/// bound without finding them clear ends it with [`WaitStatus::TimedOut`].
#[derive(Clone, Copy, Debug, PartialEq, Eq, Structural)]
pub struct AutoClearWait {
    /// The register that is polled.
    pub addr: u8,
    /// The bits that the chip clears when it is done.
    pub mask: u8,
    /// Polls that may still find the bits set before the wait gives up.
    pub remaining: u32,
    /// Where the wait stands.
    pub status: WaitStatus,
}

impl AutoClearWait {
    /// The wait as it starts.
    pub open spec fn start(addr: u8, mask: u8, bound: u32) -> AutoClearWait {
        AutoClearWait { addr, mask, remaining: bound, status: WaitStatus::Pending }
    }

    /// The wait after one more poll has returned `value`.
    pub open spec fn after(self, value: u8) -> AutoClearWait {
        if self.status != WaitStatus::Pending {
            self
        } else if value & self.mask == 0 {
            AutoClearWait { status: WaitStatus::Cleared, ..self }
        } else if self.remaining <= 1 {
            AutoClearWait { remaining: 0, status: WaitStatus::TimedOut, ..self }
        } else {
            AutoClearWait { remaining: (self.remaining - 1) as u32, ..self }
        }
    }

    /// The wait after the polls have returned `readings`, in order.
    pub open spec fn after_all(self, readings: Seq<u8>) -> AutoClearWait
        decreases readings.len(),
    {
        if readings.len() == 0 {
            self
        } else {
            self.after(readings[0]).after_all(readings.drop_first())
        }
    }

    /// The poll itself: a read of one byte from the register.
    pub fn poll(&self) -> (t: Transaction)
        ensures
            t@ == read_exchange(self.addr, 1),
    {
        read(self.addr, 1)
    }

    /// Takes the byte that the last poll returned and says where the wait
    /// stands now. Once the wait has ended, further bytes change nothing.
    pub fn observe(&mut self, value: u8) -> (status: WaitStatus)
        ensures
            *final(self) == old(self).after(value),
            status == final(self).status,
    {
        if self.status == WaitStatus::Pending {
            if value & self.mask == 0 {
                self.status = WaitStatus::Cleared;
            } else if self.remaining <= 1 {
                self.remaining = 0;
                self.status = WaitStatus::TimedOut;
            } else {
                self.remaining = self.remaining - 1;
            }
        }
        self.status
    }
}

/// What a wait of `bound` polls comes to when the polls return `readings`:
/// the first reading with the bits clear ends it well, unless `bound`
/// readings (one, where `bound` is zero) with the bits set came before.
pub open spec fn wait_outcome(readings: Seq<u8>, mask: u8, bound: nat) -> WaitStatus
    decreases readings.len(),
{
    if readings.len() == 0 {
        WaitStatus::Pending
    } else if readings[0] & mask == 0 {
        WaitStatus::Cleared
    } else if bound <= 1 {
        WaitStatus::TimedOut
    } else {
        wait_outcome(readings.drop_first(), mask, (bound - 1) as nat)
    }
}

/// Starts a wait for the bits `mask` of register `addr` to clear, giving up
/// after `bound` polls.
pub fn wait_auto_clear(addr: u8, mask: u8, bound: u32) -> (wait: AutoClearWait)
    ensures
        wait == AutoClearWait::start(addr, mask, bound),
{
    AutoClearWait { addr, mask, remaining: bound, status: WaitStatus::Pending }
}

/// A wait that has ended stays as it is, whatever is read afterwards.
pub proof fn lemma_wait_ended_is_stable(wait: AutoClearWait, readings: Seq<u8>)
    requires
        wait.status != WaitStatus::Pending,
    ensures
        wait.after_all(readings) == wait,
    decreases readings.len(),
{
    if readings.len() > 0 {
        lemma_wait_ended_is_stable(wait, readings.drop_first());
    }
}

/// Polling step by step comes to what `wait_outcome` says of the readings as
/// a whole.
pub proof fn lemma_wait_follows_outcome(addr: u8, mask: u8, bound: u32, readings: Seq<u8>)
    ensures
        AutoClearWait::start(addr, mask, bound).after_all(readings).status == wait_outcome(
            readings,
            mask,
            bound as nat,
        ),
    decreases readings.len(),
{
    let wait = AutoClearWait::start(addr, mask, bound);
    if readings.len() > 0 {
        let next = wait.after(readings[0]);
        if next.status == WaitStatus::Pending {
            assert(next == AutoClearWait::start(addr, mask, (bound - 1) as u32));
            lemma_wait_follows_outcome(addr, mask, (bound - 1) as u32, readings.drop_first());
        } else {
            lemma_wait_ended_is_stable(next, readings.drop_first());
        }
    }
}

/// A wait whose first poll finds the bits clear succeeds at once, whatever
/// the bound.
pub proof fn lemma_wait_clear_on_first_poll(addr: u8, mask: u8, bound: u32, value: u8)
    requires
        value & mask == 0,
    ensures
        AutoClearWait::start(addr, mask, bound).after(value).status == WaitStatus::Cleared,
        wait_outcome(seq![value], mask, bound as nat) == WaitStatus::Cleared,
{
}

/// Where the bits never clear, the wait is pending until the bound is used
/// up and timed out from then on; it never reports success.
pub proof fn lemma_wait_times_out(mask: u8, bound: nat, readings: Seq<u8>)
    requires
        forall|i: int| 0 <= i < readings.len() ==> #[trigger] readings[i] & mask != 0,
    ensures
        readings.len() == 0 || (readings.len() < bound) ==> wait_outcome(readings, mask, bound)
            == WaitStatus::Pending,
        readings.len() > 0 && readings.len() >= bound ==> wait_outcome(readings, mask, bound)
            == WaitStatus::TimedOut,
    decreases readings.len(),
{
    if readings.len() > 0 {
        assert(readings[0] & mask != 0);
        if bound > 1 {
            let rest = readings.drop_first();
            assert forall|i: int| 0 <= i < rest.len() implies #[trigger] rest[i] & mask != 0 by {
                assert(rest[i] == readings[i + 1]);
            }
            lemma_wait_times_out(mask, (bound - 1) as nat, rest);
        }
    }
}

} // verus!
