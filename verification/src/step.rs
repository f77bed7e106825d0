//! The hand-over between the state machines of this crate and the code that
//! owns the hardware.
//!
//! A machine names the next [`Action`]; the owner of the bus performs it and
//! reports what happened as an [`Event`]. The machines never block: every
//! wait is a bounded number of such steps.

use vstd::prelude::*;
use crate::bus::{Exchange, Transaction};

verus! {

/// What the owner of the hardware is asked to do next.
#[derive(Clone, Debug, PartialEq, Eq)]
pub enum Action {
    /// Perform one transaction within a single chip-select window.
    Transfer(Transaction),
    /// Let the given number of microseconds pass.
    Pause(u32),
    /// Sample the level of the data-ready input.
    Sample,
    /// Nothing: the machine has come to its end.
    Halt,
}

/// An action as a mathematical value.
pub enum Request {
    Transfer(Exchange),
    Pause(u32),
    Sample,
    Halt,
}

impl View for Action {
    type V = Request;

    open spec fn view(&self) -> Request {
        match *self {
            Action::Transfer(t) => Request::Transfer(t@),
            Action::Pause(micros) => Request::Pause(micros),
            Action::Sample => Request::Sample,
            Action::Halt => Request::Halt,
        }
    }
}

/// What came of the last action.
#[derive(Clone, Debug, PartialEq, Eq)]
pub enum Event {
    /// The transaction went through; these bytes were read.
    Transferred(Vec<u8>),
    /// The pause is over.
    Paused,
    /// The data-ready input was sampled; `true` is a high level.
    Sampled(bool),
    /// The transport failed.
    Fault,
}

/// An event as a mathematical value.
pub enum Outcome {
    Transferred(Seq<u8>),
    Paused,
    Sampled(bool),
    Fault,
}

impl View for Event {
    type V = Outcome;

    open spec fn view(&self) -> Outcome {
        match *self {
            Event::Transferred(bytes) => Outcome::Transferred(bytes@),
            Event::Paused => Outcome::Paused,
            Event::Sampled(level) => Outcome::Sampled(level),
            Event::Fault => Outcome::Fault,
        }
    }
}

/// Whether `outcome` is a proper result of `request`: a transfer is answered
/// by exactly the bytes that were asked for, a pause by its end, a sample by
/// a level. A fault answers nothing, and nothing answers a halt.
pub open spec fn answers(outcome: Outcome, request: Request) -> bool {
    match request {
        Request::Transfer(exchange) => outcome matches Outcome::Transferred(bytes) && bytes.len()
            == exchange.reply_len,
        Request::Pause(_) => outcome is Paused,
        Request::Sample => outcome is Sampled,
        Request::Halt => false,
    }
}

/// The results that start with `first` and go on with `rest`.
pub open spec fn followed(first: Outcome, rest: Seq<Outcome>) -> Seq<Outcome> {
    seq![first] + rest
}

/// Tests whether `event` is a proper result of `action`.
pub fn fits(event: &Event, action: &Action) -> (ok: bool)
    ensures
        ok == answers(event@, action@),
{
    match action {
        Action::Transfer(t) => match event {
            Event::Transferred(bytes) => bytes.len() == t.rx_len,
            _ => false,
        },
        Action::Pause(_) => match event {
            Event::Paused => true,
            _ => false,
        },
        Action::Sample => match event {
            Event::Sampled(_) => true,
            _ => false,
        },
        Action::Halt => false,
    }
}

} // verus!
