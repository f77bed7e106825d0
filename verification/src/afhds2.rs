//! The AFHDS 2A link on top of the transceiver.

use vstd::prelude::*;
use crate::backend::Call;
use crate::bus::{command, command_exchange, lemma_address_in_range, write_byte, write_exchange};
use crate::commands::Commands;
use crate::radio::A7105;
use crate::registers::{
    write_reg, ClockSelect, Code1, Code3, Fifo1, Fifo2, Gpio1PinControl, GpioPinFunction, IdData,
    IdLength, Pll1, Pll5, PreambleLength, RcOsc3, Register, RssiCarrierDetectThreshold, Rx, RxGain1,
    VcoCurrentCalibration,
};
use crate::registers::rx::{Bandwidth, LnaGain, MixerGain};
use crate::sequencer::{group_of, RESET_SETTLE_MICROS};
use crate::report::InitError;
use crate::step::{answers, fits, Action, Event, Outcome, Request};

verus! {

/// Magic ID for the a7105 for AFHDS2A flysky protocol
pub const RADIO_ID: u32 = 0x5475C52A;

/// Address of the mode control register.
pub const MODE_CONTROL: u8 = 0x01;

/// Mode control: automatic RSSI measurement on entering receive mode, data
/// through the FIFO.
pub const MODE_AUTO_RSSI_FIFO: u8 = 0x42;

/// Address of the clock register.
pub const CLOCK: u8 = 0x0D;

/// Clock: external crystal oscillator, reference counter zero.
pub const CLOCK_CRYSTAL: u8 = 0x05;

/// Address of the second delay register.
pub const DELAY_2: u8 = 0x17;

/// Delays: the shortest crystal, AGC and RSSI settling times.
pub const DELAY_SHORTEST: u8 = 0x00;

/// Address of the second code register.
pub const CODE_2: u8 = 0x20;

/// Code register 2: DC estimation average mode 1, no tolerated errors in the
/// identity code, sixteen bits of preamble detection.
pub const CODE_2_STRICT: u8 = 0x13;

/// Number of steps that configure the radio.
pub const CONFIGURE_LEN: usize = 19;

/// The AFHDS 2A receiver.
#[derive(Clone, Copy, Debug, PartialEq, Eq, Structural)]
pub struct Afhds2 {
    radio: A7105,
}

/// GPIO1 as configured for the link: the serial data output.
pub open spec fn link_gpio1() -> Gpio1PinControl {
    Gpio1PinControl {
        pin_function: GpioPinFunction::Sdo,
        invert_output: false,
        output_enabled: true,
    }
}

/// The receiver as configured for the link: frequency compensation on.
pub open spec fn link_rx() -> Rx {
    Rx {
        freq_compensation_enable: true,
        data_invert: false,
        bandwidth: Bandwidth::khz500,
        lowside_band_select: true,
    }
}

/// The receiver gain as configured for the link: manual calibration.
pub open spec fn link_rx_gain() -> RxGain1 {
    RxGain1 { manual_vga_calibration: true, mixer_gain: MixerGain::db24, lna_gain: LnaGain::db24 }
}

/// Code register 1 as configured for the link: error correction and CRC on,
/// identity code and preamble of four bytes each.
pub open spec fn link_code1() -> Code1 {
    Code1 {
        data_whitening_enabled: false,
        fec_enabled: true,
        crc_enabled: true,
        id_length: IdLength::Four,
        preable_length: PreambleLength::Four,
    }
}

/// A write of one byte as a request.
pub open spec fn write_request(addr: u8, value: u8) -> Request {
    Request::Transfer(write_exchange(addr, seq![value]))
}

/// What configures the radio for the link, step by step: the reset and the
/// time to let it take effect, then the registers group by group, and the
/// identity code last.
pub open spec fn configure_script() -> Seq<Request> {
    seq![
        Request::Transfer(command_exchange(Commands::Reset)),
        Request::Pause(RESET_SETTLE_MICROS),
        write_request(Gpio1PinControl::address(), link_gpio1().bits()),
        write_request(MODE_CONTROL, MODE_AUTO_RSSI_FIFO),
        write_request(Fifo1::address(), 0x25),
        write_request(Fifo2::address(), (Fifo2 { margin: 0, segment: 0 }).bits()),
        write_request(RcOsc3::address(), (RcOsc3 { clock_select: ClockSelect::FSyncDiv8 }).bits()),
        write_request(CLOCK, CLOCK_CRYSTAL),
        write_request(Pll1::address(), 0x50),
        write_request(Pll5::address(), 2),
        write_request(DELAY_2, DELAY_SHORTEST),
        write_request(Rx::address(), link_rx().bits()),
        write_request(RxGain1::address(), link_rx_gain().bits()),
        write_request(RssiCarrierDetectThreshold::address(), 0x32),
        write_request(Code1::address(), link_code1().bits()),
        write_request(CODE_2, CODE_2_STRICT),
        write_request(Code3::address(), (Code3 { encryption_key: 0xC3 }).bits()),
        write_request(VcoCurrentCalibration::address(), VcoCurrentCalibration::Automatic.bits()),
        Request::Transfer(
            write_exchange(IdData::address(), (IdData { id: RADIO_ID }).wire_bytes()),
        ),
    ]
}

impl Afhds2 {
    /// Create a new instance of a [`Afhds2`]
    ///
    /// This method does not initialize the underlying radio hardware.
    pub fn new(auto_clear_bound: u32) -> (link: Self)
        ensures
            link.radio_of() == (A7105 {
                auto_clear_bound,
                ready_bound: crate::ready::DEFAULT_READY_BOUND,
            }),
    {
        Self { radio: A7105::new(auto_clear_bound) }
    }

    /// Create a new instance of a [`Afhds2`] from the provided [`A7105`]
    ///
    /// This method is useful for cases where you may want to initialize the underlying hardware
    /// manually, for example to configure the PLL, crystal, or GPIO pins.
    pub fn from_radio(radio: A7105) -> (link: Self)
        ensures
            link.radio_of() == radio,
    {
        Self { radio }
    }

    /// The transceiver underneath.
    pub closed spec fn radio_of(self) -> A7105 {
        self.radio
    }

    /// The transceiver underneath.
    pub fn radio(&self) -> (radio: A7105)
        ensures
            radio == self.radio_of(),
    {
        self.radio
    }

    /// Starts the configuration of the underlying radio hardware: a run
    /// through [`Afhds2::configure_script`] that stops with the error at the
    /// first step that is not answered properly, and succeeds when every
    /// step has been.
    pub fn configure_radio(&self) -> (run: Configurator)
        ensures
            run@ == Progress::start(),
    {
        Configurator { script: self.configure_script(), halt: Action::Halt, done: 0, failed: false }
    }

    /// What configures the underlying radio hardware, step by step.
    ///
    /// This will reset the radio to its defaults, with the following modifications:
    ///
    /// | Config   | Value   | Description |
    /// |----------|---------|-------------|
    /// | GPIO1    | MISO    | Configures the GPIO1 pin to act as the MISO pin |
    /// | Radio ID | [`RADIO_ID`] | Configures the Radio ID |
    /// | Auto RSSI | True | Automatically perform RSSI measurement when entering RX mode
    /// | Data mode | FIFO | Use a FIFO for interfacing with the RX/TX data
    pub fn configure_script(&self) -> (script: Vec<Action>)
        ensures
            script@.len() == CONFIGURE_LEN,
            forall|i: int|
                0 <= i < CONFIGURE_LEN ==> (#[trigger] script@[i])@ == configure_script()[i],
    {
        let mut script: Vec<Action> = Vec::new();
        // Start by resetting the radio
        script.push(Action::Transfer(command(Commands::Reset)));
        // Give it time to actually perform the reset before continuing
        script.push(Action::Pause(RESET_SETTLE_MICROS));
        // Configure GPIO1 as our MISO pin
        script.push(
            Action::Transfer(
                write_reg(
                    Gpio1PinControl {
                        pin_function: GpioPinFunction::Sdo,
                        invert_output: false,
                        output_enabled: true,
                    },
                ),
            ),
        );
        script.push(Action::Transfer(write_byte(MODE_CONTROL, MODE_AUTO_RSSI_FIFO)));
        script.push(Action::Transfer(write_reg(Fifo1 { end_pointer: 0x25 })));
        script.push(Action::Transfer(write_reg(Fifo2 { margin: 0, segment: 0 })));
        script.push(Action::Transfer(write_reg(RcOsc3 { clock_select: ClockSelect::FSyncDiv8 })));
        script.push(Action::Transfer(write_byte(CLOCK, CLOCK_CRYSTAL)));
        script.push(Action::Transfer(write_reg(Pll1 { lo_channel: 0x50 })));
        script.push(Action::Transfer(write_reg(Pll5 { bfp: 2 })));
        script.push(Action::Transfer(write_byte(DELAY_2, DELAY_SHORTEST)));
        script.push(
            Action::Transfer(
                write_reg(
                    Rx {
                        freq_compensation_enable: true,
                        data_invert: false,
                        bandwidth: Bandwidth::khz500,
                        lowside_band_select: true,
                    },
                ),
            ),
        );
        script.push(
            Action::Transfer(
                write_reg(
                    RxGain1 {
                        manual_vga_calibration: true,
                        mixer_gain: MixerGain::db24,
                        lna_gain: LnaGain::db24,
                    },
                ),
            ),
        );
        script.push(Action::Transfer(write_reg(RssiCarrierDetectThreshold { threshold: 0x32 })));
        script.push(
            Action::Transfer(
                write_reg(
                    Code1 {
                        data_whitening_enabled: false,
                        fec_enabled: true,
                        crc_enabled: true,
                        id_length: IdLength::Four,
                        preable_length: PreambleLength::Four,
                    },
                ),
            ),
        );
        script.push(Action::Transfer(write_byte(CODE_2, CODE_2_STRICT)));
        script.push(Action::Transfer(write_reg(Code3 { encryption_key: 0b1100_0011 })));
        script.push(Action::Transfer(write_reg(VcoCurrentCalibration::Automatic)));
        // Set the radio ID
        script.push(Action::Transfer((IdData { id: RADIO_ID }).write()));
        script
    }
}

/// The register that a request writes to, if it is a write.
pub open spec fn target(request: Request) -> Option<u8> {
    match request {
        Request::Transfer(exchange) => if exchange.sent.len() >= 2 && exchange.sent[0] < 0x40 {
            Some(exchange.sent[0])
        } else {
            None
        },
        _ => None,
    }
}

/// The bytes that configure the radio, written out: each step after the
/// pause writes one register, and these are the addresses and the values.
pub proof fn lemma_configure_bytes()
    ensures
        configure_script().len() == CONFIGURE_LEN,
        configure_script()[0] == write_request(0x00, 0x00),
        configure_script()[1] == Request::Pause(50_000),
        configure_script()[2] == write_request(0x0B, 0x19),
        configure_script()[3] == write_request(0x01, 0x42),
        configure_script()[4] == write_request(0x03, 0x25),
        configure_script()[5] == write_request(0x04, 0x00),
        configure_script()[6] == write_request(0x09, 0x05),
        configure_script()[7] == write_request(0x0D, 0x05),
        configure_script()[8] == write_request(0x0F, 0x50),
        configure_script()[9] == write_request(0x13, 0x02),
        configure_script()[10] == write_request(0x17, 0x00),
        configure_script()[11] == write_request(0x18, 0x71),
        configure_script()[12] == write_request(0x19, 0x80),
        configure_script()[13] == write_request(0x1D, 0x32),
        configure_script()[14] == write_request(0x1F, 0x1F),
        configure_script()[15] == write_request(0x20, 0x13),
        configure_script()[16] == write_request(0x21, 0x43),
        configure_script()[17] == write_request(0x24, 0x00),
        configure_script()[18] == Request::Transfer(
            write_exchange(0x06, seq![0x54u8, 0x75u8, 0xC5u8, 0x2Au8]),
        ),
{
    assert((IdData { id: RADIO_ID }).wire_bytes() =~= seq![0x54u8, 0x75u8, 0xC5u8, 0x2Au8]);
}

/// The identity code that the bring-up of the transceiver writes is the one
/// of the link.
pub proof fn lemma_radio_id_bytes()
    ensures
        crate::sequencer::RADIO_ID@ == (IdData { id: RADIO_ID }).wire_bytes(),
{
    assert(crate::sequencer::RADIO_ID@ =~= (IdData { id: RADIO_ID }).wire_bytes());
}

/// The radio is configured in the prescribed order: of two registers that
/// belong to groups, the one written first belongs to the earlier group or
/// to the same; the identity code comes last.
pub proof fn lemma_configure_order(i: int, j: int)
    requires
        0 <= i < j < CONFIGURE_LEN,
        target(configure_script()[i]) is Some,
        target(configure_script()[j]) is Some,
        group_of(target(configure_script()[i])->0) is Some,
        group_of(target(configure_script()[j])->0) is Some,
    ensures
        group_of(target(configure_script()[i])->0)->0.rank() <= group_of(
            target(configure_script()[j])->0,
        )->0.rank(),
        target(configure_script()[CONFIGURE_LEN - 1]) == Some(0x06u8),
{
    lemma_configure_bytes();
    lemma_address_in_range(0x00);
    lemma_address_in_range(0x0B);
    lemma_address_in_range(0x01);
    lemma_address_in_range(0x03);
    lemma_address_in_range(0x04);
    lemma_address_in_range(0x09);
    lemma_address_in_range(0x0D);
    lemma_address_in_range(0x0F);
    lemma_address_in_range(0x13);
    lemma_address_in_range(0x17);
    lemma_address_in_range(0x18);
    lemma_address_in_range(0x19);
    lemma_address_in_range(0x1D);
    lemma_address_in_range(0x1F);
    lemma_address_in_range(0x20);
    lemma_address_in_range(0x21);
    lemma_address_in_range(0x24);
    lemma_address_in_range(0x06);
}

/// How far the configuration of the radio has come.
pub struct Progress {
    /// The steps of the script that have been answered properly.
    pub done: int,
    /// Whether a step was not answered properly.
    pub failed: bool,
}

impl Progress {
    /// The configuration before its first step.
    pub open spec fn start() -> Progress {
        Progress { done: 0, failed: false }
    }

    /// Whether the configuration has come to an end, well or not.
    pub open spec fn finished(self) -> bool {
        self.failed || self.done >= CONFIGURE_LEN
    }

    /// The action to perform next: the step of the script that is due, and
    /// nothing once the configuration has come to an end.
    pub open spec fn next_action(self) -> Request {
        if self.finished() || self.done < 0 {
            Request::Halt
        } else {
            configure_script()[self.done]
        }
    }

    /// The configuration after `outcome` has been reported for its action.
    /// A proper result moves it on by one step; anything else ends it as
    /// failed, and no step is taken after that.
    pub open spec fn after(self, outcome: Outcome) -> Progress {
        if self.finished() {
            self
        } else if answers(outcome, self.next_action()) {
            Progress { done: self.done + 1, ..self }
        } else {
            Progress { failed: true, ..self }
        }
    }

    /// The configuration after the outcomes `outcomes` have been reported,
    /// in order.
    pub open spec fn after_all(self, outcomes: Seq<Outcome>) -> Progress
        decreases outcomes.len(),
    {
        if outcomes.len() == 0 {
            self
        } else {
            self.after(outcomes[0]).after_all(outcomes.drop_first())
        }
    }

    /// What the configuration came to: nothing while it runs, success once
    /// every step has been answered, the error where one was not.
    pub open spec fn outcome_of(self) -> Option<Result<(), InitError>> {
        if self.failed {
            Some(Err(InitError::Bus))
        } else if self.done >= CONFIGURE_LEN {
            Some(Ok(()))
        } else {
            None
        }
    }

    /// The largest number of steps that the configuration may still take.
    pub open spec fn steps_left(self) -> nat {
        if self.finished() || self.done < 0 {
            0
        } else {
            (CONFIGURE_LEN - self.done) as nat
        }
    }
}

/// The configuration of the radio as a state machine.
pub struct Configurator {
    script: Vec<Action>,
    halt: Action,
    done: usize,
    failed: bool,
}

impl View for Configurator {
    type V = Progress;

    closed spec fn view(&self) -> Progress {
        Progress { done: self.done as int, failed: self.failed }
    }
}

impl Configurator {
    #[verifier::type_invariant]
    spec fn well_formed(&self) -> bool {
        &&& self.script@.len() == CONFIGURE_LEN
        &&& forall|i: int|
            0 <= i < CONFIGURE_LEN ==> (#[trigger] self.script@[i])@ == configure_script()[i]
        &&& self.halt@ == Request::Halt
        &&& self.done <= CONFIGURE_LEN
    }

    /// Whether the configuration has come to an end, well or not.
    pub fn is_finished(&self) -> (done: bool)
        ensures
            done == self@.finished(),
    {
        self.failed || self.done >= CONFIGURE_LEN
    }

    /// The action to perform next. A configuration that has come to an end
    /// asks for nothing.
    pub fn action(&self) -> (a: &Action)
        ensures
            a@ == self@.next_action(),
    {
        proof {
            use_type_invariant(self);
        }
        if self.failed || self.done >= CONFIGURE_LEN {
            &self.halt
        } else {
            &self.script[self.done]
        }
    }

    /// Takes the result of the action that [`action`](Self::action) named.
    pub fn advance(&mut self, event: &Event)
        ensures
            final(self)@ == old(self)@.after(event@),
    {
        proof {
            use_type_invariant(&*self);
        }
        if self.failed || self.done >= CONFIGURE_LEN {
            return ;
        }
        if fits(event, &self.script[self.done]) {
            self.done = self.done + 1;
        } else {
            self.failed = true;
        }
    }

    /// What the configuration came to: `None` while it runs, `Ok` once every
    /// step has been answered, the error where one was not.
    pub fn outcome(&self) -> (r: Option<Result<(), InitError>>)
        ensures
            r == self@.outcome_of(),
    {
        if self.failed {
            Some(Err(InitError::Bus))
        } else if self.done >= CONFIGURE_LEN {
            Some(Ok(()))
        } else {
            None
        }
    }
}

/// Every step brings the end of the configuration nearer, whatever is
/// reported, and a configuration that has come to an end asks for nothing
/// more and stays as it is.
pub proof fn lemma_configure_step(p: Progress, outcome: Outcome)
    requires
        0 <= p.done,
    ensures
        !p.finished() ==> p.after(outcome).steps_left() < p.steps_left(),
        p.finished() ==> p.after(outcome) == p && p.next_action() == Request::Halt,
        0 <= p.after(outcome).done,
{
}

/// A configuration that has come to an end stays as it is.
pub proof fn lemma_configure_ended_is_stable(p: Progress, outcomes: Seq<Outcome>)
    requires
        p.finished(),
    ensures
        p.after_all(outcomes) == p,
    decreases outcomes.len(),
{
    if outcomes.len() > 0 {
        lemma_configure_ended_is_stable(p, outcomes.drop_first());
    }
}

/// Reporting one more result is taking one more step.
pub proof fn lemma_configure_push(p: Progress, outcomes: Seq<Outcome>, last: Outcome)
    ensures
        p.after_all(outcomes.push(last)) == p.after_all(outcomes).after(last),
    decreases outcomes.len(),
{
    let all = outcomes.push(last);
    if outcomes.len() == 0 {
        assert(all.drop_first() =~= outcomes);
        assert(p.after(last).after_all(all.drop_first()) == p.after(last));
    } else {
        assert(all.drop_first() =~= outcomes.drop_first().push(last));
        lemma_configure_push(p.after(outcomes[0]), outcomes.drop_first(), last);
    }
}

/// The configuration stops at the first step that is not answered properly:
/// where the steps before step `n` are answered and step `n` is not, it
/// ends with the error, with `n` steps done, whatever is reported after
/// that, and it asks for nothing more.
pub proof fn lemma_configure_stops_at_first_failure(p: Progress, outcomes: Seq<Outcome>, n: int)
    requires
        !p.failed,
        0 <= p.done,
        0 <= n < outcomes.len(),
        p.done + n < CONFIGURE_LEN,
        forall|i: int| 0 <= i < n ==> answers(#[trigger] outcomes[i], configure_script()[p.done + i]),
        !answers(outcomes[n], configure_script()[p.done + n]),
    ensures
        p.after_all(outcomes) == (Progress { done: p.done + n, failed: true }),
        p.after_all(outcomes).outcome_of() == Some(Err::<(), InitError>(InitError::Bus)),
        p.after_all(outcomes).next_action() == Request::Halt,
    decreases n,
{
    let rest = outcomes.drop_first();
    if n == 0 {
        lemma_configure_ended_is_stable(p.after(outcomes[0]), rest);
    } else {
        assert(answers(outcomes[0], configure_script()[p.done + 0]));
        assert forall|i: int| 0 <= i < n - 1 implies answers(
            #[trigger] rest[i],
            configure_script()[p.done + 1 + i],
        ) by {
            assert(rest[i] == outcomes[i + 1]);
            assert(answers(outcomes[i + 1], configure_script()[p.done + (i + 1)]));
        }
        assert(rest[n - 1] == outcomes[n]);
        lemma_configure_stops_at_first_failure(p.after(outcomes[0]), rest, n - 1);
    }
}

/// The configuration succeeds exactly where every step is answered
/// properly: with as many proper results as there are steps left it ends
/// well, whatever is reported after that.
pub proof fn lemma_configure_succeeds(p: Progress, outcomes: Seq<Outcome>)
    requires
        !p.failed,
        0 <= p.done <= CONFIGURE_LEN,
        outcomes.len() >= CONFIGURE_LEN - p.done,
        forall|i: int|
            0 <= i < CONFIGURE_LEN - p.done ==> answers(
                #[trigger] outcomes[i],
                configure_script()[p.done + i],
            ),
    ensures
        p.after_all(outcomes) == (Progress { done: CONFIGURE_LEN as int, failed: false }),
        p.after_all(outcomes).outcome_of() == Some(Ok::<(), InitError>(())),
    decreases CONFIGURE_LEN - p.done,
{
    if p.done == CONFIGURE_LEN {
        lemma_configure_ended_is_stable(p, outcomes);
    } else {
        let rest = outcomes.drop_first();
        assert(answers(outcomes[0], configure_script()[p.done + 0]));
        assert forall|i: int| 0 <= i < CONFIGURE_LEN - p.done - 1 implies answers(
            #[trigger] rest[i],
            configure_script()[p.done + 1 + i],
        ) by {
            assert(rest[i] == outcomes[i + 1]);
            assert(answers(outcomes[i + 1], configure_script()[p.done + (i + 1)]));
        }
        lemma_configure_succeeds(p.after(outcomes[0]), rest);
    }
}

impl Progress {
    /// The calls of a run in which `outcomes` are reported: each action
    /// that the configuration asks for, with what was reported for it.
    pub open spec fn transcript(self, outcomes: Seq<Outcome>) -> Seq<Call>
        decreases outcomes.len(),
    {
        if outcomes.len() == 0 {
            seq![]
        } else {
            seq![Call { request: self.next_action(), outcome: outcomes[0] }] + self.after(
                outcomes[0],
            ).transcript(outcomes.drop_first())
        }
    }
}

/// One more result reported is one more call on record: the action that the
/// configuration asked for after the results before it, with that result.
pub proof fn lemma_configure_transcript_push(s: Progress, outcomes: Seq<Outcome>, last: Outcome)
    ensures
        s.transcript(outcomes.push(last)) == s.transcript(outcomes).push(
            Call { request: s.after_all(outcomes).next_action(), outcome: last },
        ),
        s.transcript(outcomes).len() == outcomes.len(),
    decreases outcomes.len(),
{
    let all = outcomes.push(last);
    if outcomes.len() == 0 {
        assert(all.drop_first() =~= outcomes);
        assert(s.after(last).transcript(all.drop_first()) =~= Seq::<Call>::empty());
        assert(s.transcript(all) =~= s.transcript(outcomes).push(
            Call { request: s.next_action(), outcome: last },
        ));
    } else {
        assert(all.drop_first() =~= outcomes.drop_first().push(last));
        lemma_configure_transcript_push(s.after(outcomes[0]), outcomes.drop_first(), last);
        assert(s.transcript(all) =~= s.transcript(outcomes).push(
            Call { request: s.after_all(outcomes).next_action(), outcome: last },
        ));
    }
}

/// A configuration that has not come to an end has had every result so far
/// answer its step: it has as many steps done as results were reported.
pub proof fn lemma_configure_unfinished(outcomes: Seq<Outcome>)
    requires
        !Progress::start().after_all(outcomes).finished(),
    ensures
        Progress::start().after_all(outcomes) == (Progress {
            done: outcomes.len() as int,
            failed: false,
        }),
        outcomes.len() < CONFIGURE_LEN,
        forall|i: int|
            0 <= i < outcomes.len() ==> answers(#[trigger] outcomes[i], configure_script()[i]),
    decreases outcomes.len(),
{
    let start = Progress::start();
    if outcomes.len() > 0 {
        let before = outcomes.drop_last();
        let last = outcomes.last();
        assert(before.push(last) =~= outcomes);
        lemma_configure_push(start, before, last);
        if start.after_all(before).finished() {
            lemma_configure_step(start.after_all(before), last);
        }
        lemma_configure_unfinished(before);
        assert forall|i: int| 0 <= i < outcomes.len() implies answers(
            #[trigger] outcomes[i],
            configure_script()[i],
        ) by {
            if i < before.len() {
                assert(outcomes[i] == before[i]);
            }
        }
    }
}

/// What a run of the configuration says of the results reported in it.
/// Where the run ends with the last result and not before, every result
/// but the last answered its step. The run succeeded exactly where the last
/// did too and was the answer to the last step of the script; it failed
/// exactly where the last did not answer its step.
pub proof fn lemma_configure_run(outcomes: Seq<Outcome>)
    requires
        outcomes.len() > 0,
        !Progress::start().after_all(outcomes.drop_last()).finished(),
    ensures
        outcomes.len() <= CONFIGURE_LEN,
        forall|i: int|
            0 <= i < outcomes.len() - 1 ==> answers(#[trigger] outcomes[i], configure_script()[i]),
        Progress::start().after_all(outcomes).outcome_of() == (if !answers(
            outcomes.last(),
            configure_script()[outcomes.len() - 1],
        ) {
            Some(Err::<(), InitError>(InitError::Bus))
        } else if outcomes.len() == CONFIGURE_LEN {
            Some(Ok::<(), InitError>(()))
        } else {
            None
        }),
{
    let start = Progress::start();
    let before = outcomes.drop_last();
    let last = outcomes.last();
    assert(before.push(last) =~= outcomes);
    lemma_configure_push(start, before, last);
    lemma_configure_unfinished(before);
    assert forall|i: int| 0 <= i < outcomes.len() - 1 implies answers(
        #[trigger] outcomes[i],
        configure_script()[i],
    ) by {
        assert(outcomes[i] == before[i]);
    }
}

} // verus!
