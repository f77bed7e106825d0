//! The receive side: scanning the candidate channels for frames.
//!
//! Each attempt puts the chip into standby, programs the channel, enters
//! receive mode, resets the read pointer of the FIFO and waits a bounded
//! time for the data-ready signal. A frame that arrives without an error
//! flag is read in one burst and decoded. Whatever an attempt comes to, the
//! next one follows: nothing ends the scan.

use vstd::prelude::*;
use crate::backend::Call;
use crate::bus::{read, read_exchange, strobe, strobe_exchange, write_byte, write_exchange};
use crate::commands::Strobe;
use crate::packet::{is_bind, is_sticks, TransmitterPacket};
use crate::ready::{
    lemma_ready_step_makes_progress, lemma_rounds_add, rounds_then, DataReadyWait, ReadyStage,
};
use crate::registers::CHANNEL_REGISTER;
use crate::step::{answers, fits, followed, Action, Event, Outcome, Request};

verus! {

/// Address of the mode register, which holds the status flags when read.
pub const MODE_REGISTER: u8 = 0x00;

/// Address of the FIFO data register.
pub const FIFO_DATA: u8 = 0x05;

/// The two flags of the mode register that mark a damaged frame: bits 5 and
/// 6.
pub const ERROR_FLAGS: u8 = 0x60;

/// Length of a frame in bytes.
pub const FRAME_LEN: usize = 37;

/// The highest channel of a full sweep, which starts at channel 0.
pub const LAST_CHANNEL: u8 = 0xA0;

/// The channels on which a transmitter sends while it binds.
pub const BIND_CHANNELS: [u8; 2] = [0x0C, 0x8B];

/// Attempts without a packet after which the scanner leaves a channel.
pub const DEFAULT_IDLE_ATTEMPTS: u32 = 15;

/// Where an attempt stands: the step that is to be performed next.
#[derive(Clone, Copy, Debug, PartialEq, Eq, Structural)]
pub enum ScanStage {
    /// Enter standby.
    Standby,
    /// Program the channel.
    SetChannel,
    /// Enter receive mode.
    EnterRx,
    /// Reset the read pointer of the FIFO.
    ResetFifo,
    /// Wait for the data-ready signal.
    Await(DataReadyWait),
    /// Read the status flags.
    ReadStatus,
    /// Read the frame.
    ReadFrame,
}

/// What an attempt came to.
#[derive(Clone, Debug, PartialEq)]
pub enum Attempt {
    /// No frame arrived within the bound.
    Timeout,
    /// The chip flagged the frame as damaged; the status flags as read.
    Damaged(u8),
    /// The frame fits no known packet shape.
    DecodeMismatch,
    /// A packet was received.
    Packet(TransmitterPacket),
    /// The transport failed, or answered an action with something else than
    /// was asked for.
    BusError,
}

/// What an attempt came to, without what was received.
pub enum Verdict {
    Timeout,
    Damaged(u8),
    DecodeMismatch,
    Packet,
    BusError,
}

/// The scanner as a mathematical value.
pub struct Scan {
    /// The candidate channels, in the order in which they are visited.
    pub channels: Seq<u8>,
    /// The place of the current channel among the candidates.
    pub index: int,
    /// Attempts made on the current channel since the last packet.
    pub idle: u32,
    /// Attempts without a packet after which the scanner moves on.
    pub max_idle: u32,
    /// Samples beyond the first that each phase of the wait may take.
    pub ready_bound: u32,
    /// The step that is to be performed next.
    pub stage: ScanStage,
}

impl Scan {
    /// The scanner before its first attempt.
    pub open spec fn start(channels: Seq<u8>, max_idle: u32, ready_bound: u32) -> Scan {
        Scan { channels, index: 0, idle: 0, max_idle, ready_bound, stage: ScanStage::Standby }
    }

    /// Attempts without a packet that a channel is given: `max_idle`, and
    /// one where `max_idle` is zero.
    pub open spec fn patience(self) -> int {
        if self.max_idle > 1 {
            self.max_idle as int
        } else {
            1
        }
    }

    /// Whether there is a current channel, it has not used up its attempts,
    /// and a wait that is under way is within its bound.
    pub open spec fn wf(self) -> bool {
        &&& 0 <= self.index < self.channels.len()
        &&& self.idle < self.patience()
        &&& self.stage matches ScanStage::Await(wait) ==> wait.bound == self.ready_bound
            && wait.left <= wait.bound && !wait.finished()
    }

    /// The channel on which the scanner listens.
    pub open spec fn channel(self) -> u8
        recommends
            self.wf(),
    {
        self.channels[self.index]
    }

    /// The action that the current stage asks for.
    pub open spec fn next_action(self) -> Request {
        match self.stage {
            ScanStage::Standby => Request::Transfer(strobe_exchange(Strobe::Standby)),
            ScanStage::SetChannel => Request::Transfer(
                write_exchange(CHANNEL_REGISTER, seq![self.channel()]),
            ),
            ScanStage::EnterRx => Request::Transfer(strobe_exchange(Strobe::Rx)),
            ScanStage::ResetFifo => Request::Transfer(strobe_exchange(Strobe::FifoReadPointerReset)),
            ScanStage::Await(wait) => wait.next_action(),
            ScanStage::ReadStatus => Request::Transfer(read_exchange(MODE_REGISTER, 1)),
            ScanStage::ReadFrame => Request::Transfer(read_exchange(FIFO_DATA, FRAME_LEN as nat)),
        }
    }

    /// What the attempt comes to with `outcome`, if it ends with it.
    ///
    /// Anything that is not a proper result of the action is a bus error. A
    /// wait that runs out is a timeout. A status with an error flag set is a
    /// damaged frame, of which nothing is read. A frame that was read is a
    /// packet if a shape fits it, and a mismatch if none does.
    pub open spec fn verdict(self, outcome: Outcome) -> Option<Verdict> {
        if !answers(outcome, self.next_action()) {
            Some(Verdict::BusError)
        } else {
            match self.stage {
                ScanStage::Await(wait) => match wait.after(outcome).stage {
                    ReadyStage::TimedOut => Some(Verdict::Timeout),
                    ReadyStage::Failed => Some(Verdict::BusError),
                    _ => None,
                },
                ScanStage::ReadStatus => if outcome->Transferred_0[0] & ERROR_FLAGS != 0 {
                    Some(Verdict::Damaged(outcome->Transferred_0[0]))
                } else {
                    None
                },
                ScanStage::ReadFrame => if is_sticks(outcome->Transferred_0) || is_bind(
                    outcome->Transferred_0,
                ) {
                    Some(Verdict::Packet)
                } else {
                    Some(Verdict::DecodeMismatch)
                },
                _ => None,
            }
        }
    }

    /// The scanner at the start of the attempt that follows one that ended.
    /// A packet keeps the scanner on its channel and gives the channel all
    /// its attempts again. Anything else counts against the channel; when
    /// the channel has used up its attempts the scanner moves to the next
    /// candidate, and from the last to the first.
    pub open spec fn settle(self, packet: bool) -> Scan {
        if packet {
            Scan { stage: ScanStage::Standby, idle: 0, ..self }
        } else if self.idle + 1 >= self.patience() {
            Scan {
                stage: ScanStage::Standby,
                idle: 0,
                index: if self.index + 1 >= self.channels.len() {
                    0
                } else {
                    self.index + 1
                },
                ..self
            }
        } else {
            Scan { stage: ScanStage::Standby, idle: (self.idle + 1) as u32, ..self }
        }
    }

    /// The scanner after a proper result that does not end the attempt.
    pub open spec fn proceed(self, outcome: Outcome) -> Scan {
        match self.stage {
            ScanStage::Standby => Scan { stage: ScanStage::SetChannel, ..self },
            ScanStage::SetChannel => Scan { stage: ScanStage::EnterRx, ..self },
            ScanStage::EnterRx => Scan { stage: ScanStage::ResetFifo, ..self },
            ScanStage::ResetFifo => Scan {
                stage: ScanStage::Await(DataReadyWait::start(self.ready_bound)),
                ..self
            },
            ScanStage::Await(wait) => if wait.after(outcome).stage == ReadyStage::Ready {
                Scan { stage: ScanStage::ReadStatus, ..self }
            } else {
                Scan { stage: ScanStage::Await(wait.after(outcome)), ..self }
            },
            ScanStage::ReadStatus => Scan { stage: ScanStage::ReadFrame, ..self },
            ScanStage::ReadFrame => self,
        }
    }

    /// The scanner after `outcome` has been reported for its action.
    pub open spec fn after(self, outcome: Outcome) -> Scan {
        match self.verdict(outcome) {
            Some(verdict) => self.settle(verdict is Packet),
            None => self.proceed(outcome),
        }
    }

    /// The largest number of steps that the attempt may still take.
    pub open spec fn steps_left(self) -> nat {
        match self.stage {
            ScanStage::Standby => 4 * self.ready_bound as nat + 10,
            ScanStage::SetChannel => 4 * self.ready_bound as nat + 9,
            ScanStage::EnterRx => 4 * self.ready_bound as nat + 8,
            ScanStage::ResetFifo => 4 * self.ready_bound as nat + 7,
            ScanStage::Await(wait) => if wait.finished() {
                1
            } else {
                wait.steps_left() + 2
            },
            ScanStage::ReadStatus => 2,
            ScanStage::ReadFrame => 1,
        }
    }
}

/// Whether `result` is what an attempt hands out for `verdict`: the verdict
/// itself, and with a packet the packet that `outcome` holds.
pub open spec fn reports(result: Option<Attempt>, verdict: Option<Verdict>, outcome: Outcome)
    -> bool {
    match verdict {
        None => result is None,
        Some(Verdict::Timeout) => result == Some(Attempt::Timeout),
        Some(Verdict::Damaged(flags)) => result == Some(Attempt::Damaged(flags)),
        Some(Verdict::DecodeMismatch) => result == Some(Attempt::DecodeMismatch),
        Some(Verdict::BusError) => result == Some(Attempt::BusError),
        Some(Verdict::Packet) => result matches Some(Attempt::Packet(packet)) && outcome
            matches Outcome::Transferred(bytes) && packet.read_from(bytes),
    }
}

/// The channel scanner.
pub struct ChannelScanner {
    channels: Vec<u8>,
    index: usize,
    idle: u32,
    max_idle: u32,
    ready_bound: u32,
    stage: ScanStage,
}

impl View for ChannelScanner {
    type V = Scan;

    closed spec fn view(&self) -> Scan {
        Scan {
            channels: self.channels@,
            index: self.index as int,
            idle: self.idle,
            max_idle: self.max_idle,
            ready_bound: self.ready_bound,
            stage: self.stage,
        }
    }
}

impl ChannelScanner {
    #[verifier::type_invariant]
    spec fn well_formed(&self) -> bool {
        self@.wf()
    }

    /// A scanner over `channels`, which it visits in order and over again.
    /// It leaves a channel after `max_idle` attempts in a row without a
    /// packet (after one, where `max_idle` is zero), and lets each phase of
    /// the wait for the data-ready signal take `ready_bound` samples beyond
    /// its first. There is no scanner over no channels.
    pub fn new(channels: Vec<u8>, max_idle: u32, ready_bound: u32) -> (scanner: Option<Self>)
        ensures
            scanner is Some <==> channels@.len() > 0,
            scanner matches Some(s) ==> s@ == Scan::start(channels@, max_idle, ready_bound)
                && s@.wf(),
    {
        if channels.len() == 0 {
            None
        } else {
            Some(
                ChannelScanner {
                    channels,
                    index: 0,
                    idle: 0,
                    max_idle,
                    ready_bound,
                    stage: ScanStage::Standby,
                },
            )
        }
    }

    /// A scanner over every channel from 0 to [`LAST_CHANNEL`].
    pub fn sweep(max_idle: u32, ready_bound: u32) -> (scanner: Self)
        ensures
            scanner@ == Scan::start(
                Seq::new(LAST_CHANNEL as nat + 1, |c: int| c as u8),
                max_idle,
                ready_bound,
            ),
            scanner@.wf(),
    {
        let mut channels: Vec<u8> = Vec::new();
        let mut channel: u8 = 0;
        while channel < LAST_CHANNEL
            invariant
                channel <= LAST_CHANNEL,
                channels@ == Seq::new(channel as nat, |c: int| c as u8),
            decreases LAST_CHANNEL - channel,
        {
            channels.push(channel);
            channel += 1;
            assert(channels@ =~= Seq::new(channel as nat, |c: int| c as u8));
        }
        channels.push(LAST_CHANNEL);
        assert(channels@ =~= Seq::new(LAST_CHANNEL as nat + 1, |c: int| c as u8));
        ChannelScanner {
            channels,
            index: 0,
            idle: 0,
            max_idle,
            ready_bound,
            stage: ScanStage::Standby,
        }
    }

    /// A scanner over the [`BIND_CHANNELS`].
    pub fn bind(max_idle: u32, ready_bound: u32) -> (scanner: Self)
        ensures
            scanner@ == Scan::start(BIND_CHANNELS@, max_idle, ready_bound),
            scanner@.wf(),
    {
        let mut channels: Vec<u8> = Vec::new();
        channels.push(BIND_CHANNELS[0]);
        channels.push(BIND_CHANNELS[1]);
        assert(channels@ =~= BIND_CHANNELS@);
        ChannelScanner {
            channels,
            index: 0,
            idle: 0,
            max_idle,
            ready_bound,
            stage: ScanStage::Standby,
        }
    }

    /// The channel on which the scanner listens.
    pub fn channel(&self) -> (ch: u8)
        ensures
            self@.wf(),
            ch == self@.channel(),
    {
        proof {
            use_type_invariant(self);
        }
        self.channels[self.index]
    }

    /// Attempts made on the current channel since the last packet.
    pub fn idle_attempts(&self) -> (n: u32)
        ensures
            n == self@.idle,
    {
        self.idle
    }

    /// The step that is to be performed next.
    pub fn stage(&self) -> (stage: ScanStage)
        ensures
            stage == self@.stage,
    {
        self.stage
    }

    /// The action to perform next. A scanner always has one.
    pub fn action(&self) -> (a: Action)
        ensures
            self@.wf(),
            a@ == self@.next_action(),
    {
        proof {
            use_type_invariant(self);
        }
        match self.stage {
            ScanStage::Standby => Action::Transfer(strobe(Strobe::Standby)),
            ScanStage::SetChannel => Action::Transfer(
                write_byte(CHANNEL_REGISTER, self.channels[self.index]),
            ),
            ScanStage::EnterRx => Action::Transfer(strobe(Strobe::Rx)),
            ScanStage::ResetFifo => Action::Transfer(strobe(Strobe::FifoReadPointerReset)),
            ScanStage::Await(wait) => wait.action(),
            ScanStage::ReadStatus => Action::Transfer(read(MODE_REGISTER, 1)),
            ScanStage::ReadFrame => Action::Transfer(read(FIFO_DATA, FRAME_LEN)),
        }
    }

    /// Takes the result of the action that [`action`](Self::action) named.
    /// Where the attempt ends with it, says what the attempt came to, and
    /// the scanner stands at the start of the next attempt.
    pub fn advance(&mut self, event: &Event) -> (result: Option<Attempt>)
        ensures
            final(self)@ == old(self)@.after(event@),
            reports(result, old(self)@.verdict(event@), event@),
            final(self)@.wf(),
    {
        proof {
            use_type_invariant(&*self);
        }
        let action = self.action();
        if !fits(event, &action) {
            self.settle(false);
            return Some(Attempt::BusError);
        }
        match self.stage {
            ScanStage::Standby => {
                self.stage = ScanStage::SetChannel;
                None
            },
            ScanStage::SetChannel => {
                self.stage = ScanStage::EnterRx;
                None
            },
            ScanStage::EnterRx => {
                self.stage = ScanStage::ResetFifo;
                None
            },
            ScanStage::ResetFifo => {
                self.stage = ScanStage::Await(DataReadyWait::new(self.ready_bound));
                None
            },
            ScanStage::Await(wait) => {
                let mut polled = wait;
                polled.advance(event);
                proof {
                    lemma_ready_step_makes_progress(wait, event@);
                }
                match polled.stage {
                    ReadyStage::TimedOut => {
                        self.settle(false);
                        Some(Attempt::Timeout)
                    },
                    ReadyStage::Failed => {
                        self.settle(false);
                        Some(Attempt::BusError)
                    },
                    ReadyStage::Ready => {
                        self.stage = ScanStage::ReadStatus;
                        None
                    },
                    _ => {
                        self.stage = ScanStage::Await(polled);
                        None
                    },
                }
            },
            ScanStage::ReadStatus => {
                let flags: u8 = match event {
                    Event::Transferred(bytes) => bytes[0],
                    _ => 0,
                };
                if flags & ERROR_FLAGS != 0 {
                    self.settle(false);
                    Some(Attempt::Damaged(flags))
                } else {
                    self.stage = ScanStage::ReadFrame;
                    None
                }
            },
            ScanStage::ReadFrame => {
                let decoded = match event {
                    Event::Transferred(bytes) => TransmitterPacket::from_bytes(bytes.as_slice()),
                    _ => Err(crate::packet::DecodeMismatch),
                };
                match decoded {
                    Ok((_, packet)) => {
                        self.settle(true);
                        Some(Attempt::Packet(packet))
                    },
                    Err(_) => {
                        self.settle(false);
                        Some(Attempt::DecodeMismatch)
                    },
                }
            },
        }
    }

    /// Ends the attempt and stands at the start of the next.
    fn settle(&mut self, packet: bool)
        ensures
            final(self)@ == old(self)@.settle(packet),
            final(self)@.wf(),
    {
        proof {
            use_type_invariant(&*self);
        }
        let limit: u32 = if self.max_idle > 1 {
            self.max_idle
        } else {
            1
        };
        let len = self.channels.len();
        let next: usize = if self.index + 1 >= len {
            0
        } else {
            self.index + 1
        };
        self.stage = ScanStage::Standby;
        if packet {
            self.idle = 0;
        } else if self.idle + 1 >= limit {
            self.idle = 0;
            self.index = next;
        } else {
            self.idle = self.idle + 1;
        }
    }
}

impl Scan {
    /// What the attempt that is under way comes to, if it ends with one of
    /// `outcomes`: the verdict of the first of them that ends it.
    pub open spec fn first_verdict(self, outcomes: Seq<Outcome>) -> Option<Verdict>
        decreases outcomes.len(),
    {
        if outcomes.len() == 0 {
            None
        } else {
            match self.verdict(outcomes[0]) {
                Some(verdict) => Some(verdict),
                None => self.after(outcomes[0]).first_verdict(outcomes.drop_first()),
            }
        }
    }

    /// The scanner after the outcomes `outcomes` have been reported, in
    /// order.
    pub open spec fn after_all(self, outcomes: Seq<Outcome>) -> Scan
        decreases outcomes.len(),
    {
        if outcomes.len() == 0 {
            self
        } else {
            self.after(outcomes[0]).after_all(outcomes.drop_first())
        }
    }

    /// The scanner after `count` attempts in a row that brought no packet.
    pub open spec fn after_idle_attempts(self, count: nat) -> Scan
        decreases count,
    {
        if count == 0 {
            self
        } else {
            self.settle(false).after_idle_attempts((count - 1) as nat)
        }
    }

    /// The place of the candidate that follows the current one: the next in
    /// the list, and the first after the last.
    pub open spec fn next_index(self) -> int {
        if self.index + 1 >= self.channels.len() {
            0
        } else {
            self.index + 1
        }
    }
}

/// Whatever is reported, the scanner stays well formed and keeps its
/// candidates and its bounds.
pub proof fn lemma_scan_stays_well_formed(s: Scan, outcome: Outcome)
    requires
        s.wf(),
    ensures
        s.after(outcome).wf(),
        s.after(outcome).channels == s.channels,
        s.after(outcome).max_idle == s.max_idle,
        s.after(outcome).ready_bound == s.ready_bound,
{
    if let ScanStage::Await(wait) = s.stage {
        lemma_ready_step_makes_progress(wait, outcome);
    }
}

/// Every step either ends the attempt, and then the scanner stands at the
/// start of the next one, or brings its end nearer. No result can hold the
/// scanner up.
pub proof fn lemma_attempt_makes_progress(s: Scan, outcome: Outcome)
    requires
        s.wf(),
    ensures
        s.verdict(outcome) is Some ==> s.after(outcome).stage == ScanStage::Standby,
        s.verdict(outcome) is None ==> s.after(outcome).steps_left() < s.steps_left() && s.after(
            outcome,
        ).index == s.index && s.after(outcome).idle == s.idle,
{
    if let ScanStage::Await(wait) = s.stage {
        lemma_ready_step_makes_progress(wait, outcome);
    }
}

/// An attempt has ended once as many results have been reported as it had
/// steps left, whatever they were: at most `4 * ready_bound + 10` for a
/// whole attempt.
pub proof fn lemma_attempt_ends(s: Scan, outcomes: Seq<Outcome>)
    requires
        s.wf(),
        outcomes.len() >= s.steps_left(),
    ensures
        s.steps_left() > 0,
        s.first_verdict(outcomes) is Some,
    decreases outcomes.len(),
{
    lemma_attempt_makes_progress(s, outcomes[0]);
    lemma_scan_stays_well_formed(s, outcomes[0]);
    if s.verdict(outcomes[0]) is None {
        lemma_attempt_ends(s.after(outcomes[0]), outcomes.drop_first());
    }
}

/// A packet comes only out of a frame that was read in full and that one of
/// the shapes fits.
pub proof fn lemma_packet_needs_frame(s: Scan, outcome: Outcome)
    requires
        s.verdict(outcome) is Some,
        s.verdict(outcome)->0 is Packet,
    ensures
        s.stage == ScanStage::ReadFrame,
        outcome matches Outcome::Transferred(bytes) && bytes.len() == FRAME_LEN && (is_sticks(bytes)
            || is_bind(bytes)),
{
}

/// A frame is read only after a status without error flags, and the status
/// only after the data-ready signal was seen: the scanner enters each of
/// these stages from the one before it and in no other way.
pub proof fn lemma_frame_needs_ready(s: Scan, outcome: Outcome)
    ensures
        s.stage != ScanStage::ReadFrame && s.after(outcome).stage == ScanStage::ReadFrame ==> s.stage
            == ScanStage::ReadStatus && (outcome matches Outcome::Transferred(bytes) && bytes.len()
            == 1 && bytes[0] & ERROR_FLAGS == 0),
        s.stage != ScanStage::ReadStatus && s.after(outcome).stage == ScanStage::ReadStatus
            ==> (s.stage matches ScanStage::Await(wait) && wait.stage == ReadyStage::SampleFall
            && outcome == Outcome::Sampled(false)),
{
}

/// Where the data-ready signal stays away, the attempt ends in a timeout
/// and nothing is read: a wait that times out gives that verdict, and the
/// scanner goes back to standby without passing through the read stages.
pub proof fn lemma_quiet_channel_times_out(s: Scan, outcome: Outcome)
    requires
        s.stage matches ScanStage::Await(wait) && wait.after(outcome).stage == ReadyStage::TimedOut
            && !wait.finished(),
    ensures
        s.verdict(outcome) == Some(Verdict::Timeout),
        s.after(outcome).stage == ScanStage::Standby,
{
}

/// The choice of channel depends on the candidates and the count of idle
/// attempts alone. A packet keeps the channel. An attempt without one keeps
/// it while the channel has attempts left, and moves to the next candidate,
/// or from the last to the first, when it has none.
pub proof fn lemma_channel_choice(s: Scan, packet: bool)
    requires
        s.wf(),
    ensures
        s.settle(packet).wf(),
        s.settle(packet).channels == s.channels,
        packet ==> s.settle(packet).index == s.index && s.settle(packet).idle == 0,
        !packet && s.idle + 1 < s.patience() ==> s.settle(packet).index == s.index && s.settle(
            packet,
        ).idle == s.idle + 1,
        !packet && s.idle + 1 >= s.patience() ==> s.settle(packet).index == s.next_index()
            && s.settle(packet).idle == 0,
        0 <= s.next_index() < s.channels.len(),
{
}

/// A channel that brings no packet is left after exactly as many attempts
/// as the scanner has patience, and not before.
pub proof fn lemma_idle_channel_is_left(s: Scan, count: nat)
    requires
        s.wf(),
        s.idle == 0,
        count <= s.patience(),
    ensures
        count < s.patience() ==> s.after_idle_attempts(count).index == s.index
            && s.after_idle_attempts(count).idle == count,
        count == s.patience() ==> s.after_idle_attempts(count).index == s.next_index()
            && s.after_idle_attempts(count).idle == 0,
{
    lemma_idle_attempts_from(s, count);
}

/// The count of idle attempts goes up by one with each attempt without a
/// packet until the channel is left.
proof fn lemma_idle_attempts_from(s: Scan, count: nat)
    requires
        s.wf(),
        s.idle + count <= s.patience(),
    ensures
        s.idle + count < s.patience() ==> s.after_idle_attempts(count).index == s.index
            && s.after_idle_attempts(count).idle == s.idle + count,
        s.idle + count == s.patience() ==> s.after_idle_attempts(count).index == s.next_index()
            && s.after_idle_attempts(count).idle == 0,
    decreases count,
{
    if count > 0 {
        lemma_channel_choice(s, false);
        if s.idle + 1 < s.patience() {
            lemma_idle_attempts_from(s.settle(false), (count - 1) as nat);
        } else {
            assert(count == 1);
            assert(s.settle(false).after_idle_attempts(0) == s.settle(false));
        }
    }
}

/// What is reported while the chip is armed, and then `rest`: the strobe to
/// standby, the write of the channel, the strobe to receive and the reset of
/// the read pointer all go through.
pub open spec fn armed_then(rest: Seq<Outcome>) -> Seq<Outcome> {
    followed(
        Outcome::Transferred(seq![]),
        followed(
            Outcome::Transferred(seq![]),
            followed(Outcome::Transferred(seq![]), followed(Outcome::Transferred(seq![]), rest)),
        ),
    )
}

/// What is reported in an attempt on a channel on which nothing is heard:
/// the chip is armed, and the data-ready signal stays low for as long as the
/// scanner cares to sample it.
pub open spec fn silent_attempt(ready_bound: u32) -> Seq<Outcome> {
    armed_then(rounds_then(false, ready_bound as nat + 1, seq![]))
}

/// What is reported in an attempt in which a frame arrives: the chip is
/// armed, the data-ready signal rises after `low` samples and falls after
/// `high` more, the status reads `status` and the FIFO holds `frame`.
pub open spec fn heard_attempt(low: nat, high: nat, status: u8, frame: Seq<u8>) -> Seq<Outcome> {
    armed_then(
        rounds_then(
            false,
            low,
            followed(
                Outcome::Sampled(true),
                rounds_then(
                    true,
                    high,
                    followed(
                        Outcome::Sampled(false),
                        followed(
                            Outcome::Transferred(seq![status]),
                            followed(Outcome::Transferred(frame), seq![]),
                        ),
                    ),
                ),
            ),
        ),
    )
}

/// On a channel on which the data-ready signal stays low the attempt ends
/// in a timeout: nothing is read and nothing is decoded.
pub proof fn lemma_silent_attempt_times_out(s: Scan)
    requires
        s.wf(),
        s.stage == ScanStage::Standby,
    ensures
        s.first_verdict(silent_attempt(s.ready_bound)) == Some(Verdict::Timeout),
{
    let bound = s.ready_bound;
    let last = rounds_then(false, 1, seq![]);
    assert(last == followed(Outcome::Sampled(false), followed(Outcome::Paused, seq![]))) by {
        reveal_with_fuel(rounds_then, 2);
    }
    lemma_rounds_add(false, bound as nat, 1, seq![]);
    let sampling = rounds_then(false, bound as nat, last);
    let waiting = lemma_arming(s, sampling);
    lemma_scan_waits(waiting, DataReadyWait::start(bound), false, bound as nat, last);
    let spent = Scan {
        stage: ScanStage::Await(DataReadyWait { left: 0, ..DataReadyWait::start(bound) }),
        ..waiting
    };
    lemma_scan_step(spent, Outcome::Sampled(false), followed(Outcome::Paused, seq![]));
    lemma_scan_step(spent.after(Outcome::Sampled(false)), Outcome::Paused, seq![]);
}

/// In an attempt in which the data-ready signal rises and falls within the
/// bound, the status is read and decides: with an error flag set the frame
/// is discarded unread; without one the frame is read, and it is a packet if
/// one of the shapes fits it and a mismatch if none does.
pub proof fn lemma_heard_attempt_reads(s: Scan, low: nat, high: nat, status: u8, frame: Seq<u8>)
    requires
        s.wf(),
        s.stage == ScanStage::Standby,
        low <= s.ready_bound,
        high <= s.ready_bound,
        frame.len() == FRAME_LEN,
    ensures
        s.first_verdict(heard_attempt(low, high, status, frame)) == Some(
            if status & ERROR_FLAGS != 0 {
                Verdict::Damaged(status)
            } else if is_sticks(frame) || is_bind(frame) {
                Verdict::Packet
            } else {
                Verdict::DecodeMismatch
            },
        ),
{
    let bound = s.ready_bound;
    let reading = followed(
        Outcome::Transferred(seq![status]),
        followed(Outcome::Transferred(frame), seq![]),
    );
    let falling = followed(Outcome::Sampled(false), reading);
    let rising = followed(Outcome::Sampled(true), rounds_then(true, high, falling));
    let waiting = lemma_arming(s, rounds_then(false, low, rising));
    let start = DataReadyWait::start(bound);
    lemma_scan_waits(waiting, start, false, low, rising);
    let low_wait = DataReadyWait { left: (bound - low) as u32, ..start };
    let at_rise = Scan { stage: ScanStage::Await(low_wait), ..waiting };
    lemma_scan_step(at_rise, Outcome::Sampled(true), rounds_then(true, high, falling));
    let risen = low_wait.after(Outcome::Sampled(true));
    let after_rise = at_rise.after(Outcome::Sampled(true));
    assert(after_rise == Scan { stage: ScanStage::Await(risen), ..waiting });
    lemma_scan_waits(after_rise, risen, true, high, falling);
    let high_wait = DataReadyWait { left: (bound - high) as u32, ..risen };
    let at_fall = Scan { stage: ScanStage::Await(high_wait), ..waiting };
    lemma_scan_step(at_fall, Outcome::Sampled(false), reading);
    let at_status = at_fall.after(Outcome::Sampled(false));
    assert(at_status.stage == ScanStage::ReadStatus);
    lemma_scan_step(
        at_status,
        Outcome::Transferred(seq![status]),
        followed(Outcome::Transferred(frame), seq![]),
    );
    if status & ERROR_FLAGS == 0 {
        let at_frame = at_status.after(Outcome::Transferred(seq![status]));
        assert(at_frame.stage == ScanStage::ReadFrame);
        lemma_scan_step(at_frame, Outcome::Transferred(frame), seq![]);
    }
}

/// Arming the chip takes four transactions, none of which ends the attempt;
/// after them the scanner waits for the data-ready signal with the whole
/// bound ahead of it.
proof fn lemma_arming(s: Scan, rest: Seq<Outcome>) -> (waiting: Scan)
    requires
        s.wf(),
        s.stage == ScanStage::Standby,
    ensures
        waiting == (Scan { stage: ScanStage::Await(DataReadyWait::start(s.ready_bound)), ..s }),
        s.first_verdict(armed_then(rest)) == waiting.first_verdict(rest),
{
    let done = Outcome::Transferred(seq![]);
    let s1 = s.after(done);
    let s2 = s1.after(done);
    let s3 = s2.after(done);
    lemma_scan_step(s, done, followed(done, followed(done, followed(done, rest))));
    lemma_scan_step(s1, done, followed(done, followed(done, rest)));
    lemma_scan_step(s2, done, followed(done, rest));
    lemma_scan_step(s3, done, rest);
    s3.after(done)
}

/// The verdict of an attempt after a result and further results: that of
/// the result if it ends the attempt, else that of the further results.
pub proof fn lemma_scan_step(s: Scan, first: Outcome, rest: Seq<Outcome>)
    ensures
        s.first_verdict(followed(first, rest)) == match s.verdict(first) {
            Some(verdict) => Some(verdict),
            None => s.after(first).first_verdict(rest),
        },
{
    let all = followed(first, rest);
    assert(all[0] == first);
    assert(all.drop_first() =~= rest);
}

/// While the data-ready signal keeps its level, and the wait has samples
/// left, the attempt goes on: the scanner waits on, with as many samples
/// less as it has taken.
proof fn lemma_scan_waits(
    s: Scan,
    wait: DataReadyWait,
    level: bool,
    rounds: nat,
    rest: Seq<Outcome>,
)
    requires
        s.stage == ScanStage::Await(wait),
        wait.stage == (if level {
            ReadyStage::SampleFall
        } else {
            ReadyStage::SampleRise
        }),
        rounds <= wait.left,
    ensures
        s.first_verdict(rounds_then(level, rounds, rest)) == (Scan {
            stage: ScanStage::Await(DataReadyWait { left: (wait.left - rounds) as u32, ..wait }),
            ..s
        }).first_verdict(rest),
    decreases rounds,
{
    if rounds > 0 {
        let tail = rounds_then(level, (rounds - 1) as nat, rest);
        lemma_scan_step(s, Outcome::Sampled(level), followed(Outcome::Paused, tail));
        let paused = s.after(Outcome::Sampled(level));
        lemma_scan_step(paused, Outcome::Paused, tail);
        let next = paused.after(Outcome::Paused);
        lemma_scan_waits(
            next,
            DataReadyWait { left: (wait.left - 1) as u32, ..wait },
            level,
            (rounds - 1) as nat,
            rest,
        );
    }
}

/// Reporting one more result is taking one more step; and while the attempt
/// has not ended, its verdict is that of the result reported last.
pub proof fn lemma_scan_after_all_push(s: Scan, outcomes: Seq<Outcome>, last: Outcome)
    ensures
        s.after_all(outcomes.push(last)) == s.after_all(outcomes).after(last),
        s.first_verdict(outcomes) is None ==> s.first_verdict(outcomes.push(last)) == s.after_all(
            outcomes,
        ).verdict(last),
    decreases outcomes.len(),
{
    let all = outcomes.push(last);
    if outcomes.len() == 0 {
        assert(all.drop_first() =~= outcomes);
        assert(s.after(last).after_all(all.drop_first()) == s.after(last));
        assert(s.after(last).first_verdict(all.drop_first()) is None);
    } else {
        assert(all.drop_first() =~= outcomes.drop_first().push(last));
        lemma_scan_after_all_push(s.after(outcomes[0]), outcomes.drop_first(), last);
    }
}

impl Scan {
    /// The calls of a run in which `outcomes` are reported: each action
    /// that the scanner asks for, with what was reported for it.
    pub open spec fn transcript(self, outcomes: Seq<Outcome>) -> Seq<Call>
        decreases outcomes.len(),
    {
        if outcomes.len() == 0 {
            seq![]
        } else {
            seq![Call { request: self.next_action(), outcome: outcomes[0] }] + self.after(
                outcomes[0],
            ).transcript(outcomes.drop_first())
        }
    }
}

/// One more result reported is one more call on record: the action that the
/// scanner asked for after the results before it, with that result.
pub proof fn lemma_scan_transcript_push(s: Scan, outcomes: Seq<Outcome>, last: Outcome)
    ensures
        s.transcript(outcomes.push(last)) == s.transcript(outcomes).push(
            Call { request: s.after_all(outcomes).next_action(), outcome: last },
        ),
        s.transcript(outcomes).len() == outcomes.len(),
    decreases outcomes.len(),
{
    let all = outcomes.push(last);
    if outcomes.len() == 0 {
        assert(all.drop_first() =~= outcomes);
        assert(s.after(last).transcript(all.drop_first()) =~= Seq::<Call>::empty());
        assert(s.transcript(all) =~= s.transcript(outcomes).push(
            Call { request: s.next_action(), outcome: last },
        ));
    } else {
        assert(all.drop_first() =~= outcomes.drop_first().push(last));
        lemma_scan_transcript_push(s.after(outcomes[0]), outcomes.drop_first(), last);
        assert(s.transcript(all) =~= s.transcript(outcomes).push(
            Call { request: s.after_all(outcomes).next_action(), outcome: last },
        ));
    }
}

} // verus!
