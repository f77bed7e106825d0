//! A register file that gives back what was written to it.
//!
//! It stands in for the chip where none is at hand: a write stores its
//! payload under the register's address, a read returns what is stored
//! there, and a strobe changes nothing.

use vstd::prelude::*;
use crate::bus::{read_exchange, write_exchange, Exchange, Transaction};
use crate::bus::{ADDRESS_MASK, READ_FLAG, STROBE_FLAG};
use crate::backend::Backend;
use crate::step::{Action, Event, Outcome, Request};

verus! {

/// Number of registers that six address bits can name.
pub const REGISTER_COUNT: usize = 64;

/// `len` bytes: those of `stored` as far as they go, then zeros.
pub open spec fn padded(stored: Seq<u8>, len: nat) -> Seq<u8> {
    Seq::new(
        len,
        |i: int|
            if i < stored.len() {
                stored[i]
            } else {
                0u8
            },
    )
}

/// What the register file holds after `exchange`, and what it replies.
///
/// The first byte of the exchange tells what it is. A strobe, or an exchange
/// without a byte, changes nothing and is answered with zeros. A read is
/// answered with what the register holds, cut or filled with zeros to the
/// length asked for. A write stores the bytes behind the address byte and is
/// answered with zeros.
pub open spec fn respond(cells: Seq<Seq<u8>>, exchange: Exchange) -> (Seq<Seq<u8>>, Seq<u8>) {
    if exchange.sent.len() == 0 || exchange.sent[0] & STROBE_FLAG != 0 {
        (cells, padded(seq![], exchange.reply_len))
    } else if exchange.sent[0] & READ_FLAG != 0 {
        (cells, padded(cells[(exchange.sent[0] & ADDRESS_MASK) as int], exchange.reply_len))
    } else {
        (
            cells.update((exchange.sent[0] & ADDRESS_MASK) as int, exchange.sent.skip(1)),
            padded(seq![], exchange.reply_len),
        )
    }
}

/// The register file.
pub struct Loopback {
    cells: Vec<Vec<u8>>,
}

impl Loopback {
    #[verifier::type_invariant]
    spec fn well_formed(&self) -> bool {
        self.cells@.len() == REGISTER_COUNT
    }

    /// What each register holds, by address.
    pub closed spec fn contents(&self) -> Seq<Seq<u8>> {
        Seq::new(self.cells@.len(), |i: int| self.cells@[i]@)
    }

    /// A register file in which every register is empty.
    pub fn new() -> (file: Self)
        ensures
            file.contents() == Seq::new(REGISTER_COUNT as nat, |i: int| Seq::<u8>::empty()),
    {
        let mut cells: Vec<Vec<u8>> = Vec::new();
        let mut i: usize = 0;
        while i < REGISTER_COUNT
            invariant
                i <= REGISTER_COUNT,
                cells@.len() == i,
                forall|j: int| 0 <= j < i ==> (#[trigger] cells@[j])@ == Seq::<u8>::empty(),
            decreases REGISTER_COUNT - i,
        {
            cells.push(Vec::new());
            i += 1;
        }
        let file = Loopback { cells };
        assert(file.contents() =~= Seq::new(REGISTER_COUNT as nat, |i: int| Seq::<u8>::empty()));
        file
    }

    /// What the register at `addr` holds. Only the low six bits of `addr`
    /// are used.
    pub fn peek(&self, addr: u8) -> (stored: Vec<u8>)
        ensures
            self.contents().len() == REGISTER_COUNT,
            stored@ == self.contents()[(addr & ADDRESS_MASK) as int],
    {
        proof {
            use_type_invariant(self);
        }
        assert(addr & 0x3F < 64) by (bit_vector);
        let at = (addr & ADDRESS_MASK) as usize;
        let len = self.cells[at].len();
        copy_padded(&self.cells[at], 0, len)
    }

    /// Performs `t` on the register file and hands back the reply, which is
    /// as long as `t` asks for.
    pub fn exchange(&mut self, t: &Transaction) -> (reply: Vec<u8>)
        ensures
            old(self).contents().len() == REGISTER_COUNT,
            (final(self).contents(), reply@) == respond(old(self).contents(), t@),
    {
        proof {
            use_type_invariant(&*self);
        }
        let nothing: Vec<u8> = Vec::new();
        if t.tx.len() == 0 {
            return copy_padded(&nothing, 0, t.rx_len);
        }
        let first = t.tx[0];
        assert(first & 0x3F < 64) by (bit_vector);
        let at = (first & ADDRESS_MASK) as usize;
        if first & STROBE_FLAG != 0 {
            copy_padded(&nothing, 0, t.rx_len)
        } else if first & READ_FLAG != 0 {
            copy_padded(&self.cells[at], 0, t.rx_len)
        } else {
            let payload = copy_padded(&t.tx, 1, t.tx.len() - 1);
            assert(payload@ =~= t.tx@.skip(1));
            let ghost before = self.contents();
            self.cells[at] = payload;
            assert(self.contents() =~= before.update(at as int, t.tx@.skip(1)));
            copy_padded(&nothing, 0, t.rx_len)
        }
    }
}

impl Backend for Loopback {
    /// Performs `action` on the register file: a transfer is exchanged, a
    /// pause is over at once, and the data-ready input, which the register
    /// file does not have, reads low.
    fn perform(&mut self, action: &Action) -> (event: Event)
        ensures
            final(self).contents() == (match action@ {
                Request::Transfer(exchange) => respond(old(self).contents(), exchange).0,
                _ => old(self).contents(),
            }),
            event@ == (match action@ {
                Request::Transfer(exchange) => Outcome::Transferred(
                    respond(old(self).contents(), exchange).1,
                ),
                Request::Pause(_) => Outcome::Paused,
                Request::Sample => Outcome::Sampled(false),
                Request::Halt => Outcome::Fault,
            }),
    {
        match action {
            Action::Transfer(t) => Event::Transferred(self.exchange(t)),
            Action::Pause(_) => Event::Paused,
            Action::Sample => Event::Sampled(false),
            Action::Halt => Event::Fault,
        }
    }
}

/// Copies `len` bytes of `source` from `from` on, with zeros where `source`
/// has no more.
fn copy_padded(source: &Vec<u8>, from: usize, len: usize) -> (copy: Vec<u8>)
    requires
        from <= source@.len(),
    ensures
        copy@ == padded(source@.skip(from as int), len as nat),
{
    let mut copy: Vec<u8> = Vec::new();
    let total = source.len();
    let available = total - from;
    let mut i: usize = 0;
    while i < len
        invariant
            i <= len,
            from <= total == source@.len(),
            available == total - from,
            copy@ == padded(source@.skip(from as int), i as nat),
        decreases len - i,
    {
        let byte: u8 = if i < available {
            source[from + i]
        } else {
            0
        };
        copy.push(byte);
        i += 1;
        assert(copy@ =~= padded(source@.skip(from as int), i as nat));
    }
    copy
}

/// What is written to a register is read back unchanged: after a write of
/// `bytes` to the register at `addr`, a read of as many bytes from it
/// returns `bytes`. The write touches no other register.
pub proof fn lemma_write_then_read(cells: Seq<Seq<u8>>, addr: u8, bytes: Seq<u8>)
    requires
        cells.len() == REGISTER_COUNT,
    ensures
        respond(respond(cells, write_exchange(addr, bytes)).0, read_exchange(addr, bytes.len())).1
            == bytes,
        respond(respond(cells, write_exchange(addr, bytes)).0, read_exchange(addr, bytes.len())).0
            == respond(cells, write_exchange(addr, bytes)).0,
        forall|other: int|
            0 <= other < REGISTER_COUNT && other != (addr & ADDRESS_MASK) ==> respond(
                cells,
                write_exchange(addr, bytes),
            ).0[other] == cells[other],
{
    let w = addr & ADDRESS_MASK;
    let r = (addr & ADDRESS_MASK) | READ_FLAG;
    assert(w & 0x80 == 0 && w & 0x40 == 0 && w & 0x3F == w && w < 64 && r & 0x80 == 0 && r & 0x40
        != 0 && r & 0x3F == w) by (bit_vector)
        requires
            w == addr & 0x3F,
            r == (addr & 0x3F) | 0x40,
    ;
    let written = write_exchange(addr, bytes);
    assert(written.sent[0] == w);
    assert(written.sent.skip(1) =~= bytes);
    let stored = respond(cells, written).0;
    assert(stored[w as int] == bytes);
    let asked = read_exchange(addr, bytes.len());
    assert(asked.sent[0] == r);
    assert(respond(stored, asked).1 =~= bytes);
}

/// A register file keeps its 64 registers whatever is performed on it, and
/// every reply has the length that was asked for.
pub proof fn lemma_respond_shape(cells: Seq<Seq<u8>>, exchange: Exchange)
    requires
        cells.len() == REGISTER_COUNT,
    ensures
        respond(cells, exchange).0.len() == REGISTER_COUNT,
        respond(cells, exchange).1.len() == exchange.reply_len,
{
    if exchange.sent.len() > 0 {
        let first = exchange.sent[0];
        assert(first & 0x3F < 64) by (bit_vector);
    }
}

} // verus!
