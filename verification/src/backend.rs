//! The boundary to the hardware.
//!
//! A [`Backend`] performs one action at a time. Nothing is assumed of what
//! it reports. A [`Recorder`] wraps a backend and keeps, for the proofs
//! only, the record of what was asked of it and what it reported, so that
//! what is said of a run can be said of the very calls that were made.

use vstd::prelude::*;
use crate::step::{Action, Event, Outcome, Request};

verus! {

/// What owns the hardware: the bus with its chip select, the data-ready
/// input and a clock. A backend may block while it performs an action; it
/// may not fail to return.
pub trait Backend {
    /// Performs `action` and reports what came of it.
    fn perform(&mut self, action: &Action) -> Event;
}

/// One call of a backend: what was asked and what was reported.
pub struct Call {
    pub request: Request,
    pub outcome: Outcome,
}

/// A backend together with the record of the calls made through it.
pub struct Recorder<B: Backend> {
    inner: B,
    calls: Ghost<Seq<Call>>,
}

impl<B: Backend> Recorder<B> {
    /// The calls made through this recorder so far, first call first.
    pub closed spec fn log(&self) -> Seq<Call> {
        self.calls@
    }

    /// The backend that the recorder wraps.
    pub closed spec fn backend_of(&self) -> B {
        self.inner
    }

    /// Wraps `inner`, with no call on record.
    pub fn new(inner: B) -> (recorder: Self)
        ensures
            recorder.log() == Seq::<Call>::empty(),
            recorder.backend_of() == inner,
    {
        Recorder { inner, calls: Ghost(Seq::empty()) }
    }

    /// Performs `action` on the backend and reports what came of it. The
    /// call goes on record.
    pub fn perform(&mut self, action: &Action) -> (event: Event)
        ensures
            final(self).log() == old(self).log().push(
                Call { request: action@, outcome: event@ },
            ),
    {
        let event = self.inner.perform(action);
        self.calls = Ghost(self.calls@.push(Call { request: action@, outcome: event@ }));
        event
    }

    /// The backend.
    pub fn backend(&self) -> (inner: &B)
        ensures
            *inner == self.backend_of(),
    {
        &self.inner
    }

    /// The backend, to be changed in place. What is done to it through
    /// this borrow is no call and leaves the record as it is.
    pub fn backend_mut(&mut self) -> (inner: &mut B)
        ensures
            *inner == old(self).backend_of(),
            final(self).backend_of() == *final(inner),
            final(self).log() == old(self).log(),
    {
        &mut self.inner
    }

    /// Hands the backend back and lets go of the record.
    pub fn into_inner(self) -> (inner: B)
        ensures
            inner == self.backend_of(),
    {
        self.inner
    }
}

} // verus!
