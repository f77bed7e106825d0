//! The bounded wait for the data-ready signal.
//!
//! The chip raises the signal while it receives and drops it when a frame
//! lies in the FIFO. The wait samples the input until it has seen the signal
//! high and then low, pausing after every sample that shows neither, and
//! gives up once a phase has used up its samples.

use vstd::prelude::*;
use crate::step::{answers, fits, followed, Action, Event, Outcome, Request};

verus! {

/// Pause after a sample that found the signal still low, in microseconds.
pub const RISE_PAUSE_MICROS: u32 = 100;

/// Pause after a sample that found the signal still high, in microseconds.
pub const FALL_PAUSE_MICROS: u32 = 1;

/// Samples beyond the first that each phase of the wait may take: with the
/// pause after each, some two hundred milliseconds for the signal to rise.
pub const DEFAULT_READY_BOUND: u32 = 2000;

/// Where the wait for the data-ready signal stands.
#[derive(Clone, Copy, Debug, PartialEq, Eq, Structural)]
pub enum ReadyStage {
    /// Sample the input; the signal has not been seen high.
    SampleRise,
    /// Pause; the last sample found the signal low.
    PauseRise,
    /// Sample the input; the signal has been seen high.
    SampleFall,
    /// Pause; the last sample found the signal still high.
    PauseFall,
    /// The signal went high and then low: a frame is ready.
    Ready,
    /// A phase used up its samples.
    TimedOut,
    /// The transport failed.
    Failed,
}

/// The bounded wait for the data-ready signal.
#[derive(Clone, Copy, Debug, PartialEq, Eq, Structural)]
pub struct DataReadyWait {
    /// The step that is to be performed next.
    pub stage: ReadyStage,
    /// Samples that the current phase may still take after the next one.
    pub left: u32,
    /// Samples beyond the first that each phase may take.
    pub bound: u32,
}

impl DataReadyWait {
    /// The wait before its first sample.
    pub open spec fn start(bound: u32) -> DataReadyWait {
        DataReadyWait { stage: ReadyStage::SampleRise, left: bound, bound }
    }

    /// Whether the wait has come to an end.
    pub open spec fn finished(self) -> bool {
        self.stage == ReadyStage::Ready || self.stage == ReadyStage::TimedOut || self.stage
            == ReadyStage::Failed
    }

    /// The action that the current stage asks for.
    pub open spec fn next_action(self) -> Request {
        match self.stage {
            ReadyStage::SampleRise => Request::Sample,
            ReadyStage::PauseRise => Request::Pause(RISE_PAUSE_MICROS),
            ReadyStage::SampleFall => Request::Sample,
            ReadyStage::PauseFall => Request::Pause(FALL_PAUSE_MICROS),
            ReadyStage::Ready => Request::Halt,
            ReadyStage::TimedOut => Request::Halt,
            ReadyStage::Failed => Request::Halt,
        }
    }

    /// The wait after `outcome` has been reported for its action. A wait
    /// that has ended stays as it is; anything that is not a proper result of
    /// the action ends it as failed.
    pub open spec fn after(self, outcome: Outcome) -> DataReadyWait {
        if self.finished() {
            self
        } else if !answers(outcome, self.next_action()) {
            DataReadyWait { stage: ReadyStage::Failed, ..self }
        } else {
            match self.stage {
                ReadyStage::SampleRise => if outcome == Outcome::Sampled(true) {
                    DataReadyWait { stage: ReadyStage::SampleFall, left: self.bound, ..self }
                } else {
                    DataReadyWait { stage: ReadyStage::PauseRise, ..self }
                },
                ReadyStage::PauseRise => if self.left == 0 {
                    DataReadyWait { stage: ReadyStage::TimedOut, ..self }
                } else {
                    DataReadyWait {
                        stage: ReadyStage::SampleRise,
                        left: (self.left - 1) as u32,
                        ..self
                    }
                },
                ReadyStage::SampleFall => if outcome == Outcome::Sampled(false) {
                    DataReadyWait { stage: ReadyStage::Ready, ..self }
                } else {
                    DataReadyWait { stage: ReadyStage::PauseFall, ..self }
                },
                ReadyStage::PauseFall => if self.left == 0 {
                    DataReadyWait { stage: ReadyStage::TimedOut, ..self }
                } else {
                    DataReadyWait {
                        stage: ReadyStage::SampleFall,
                        left: (self.left - 1) as u32,
                        ..self
                    }
                },
                _ => self,
            }
        }
    }

    /// The wait after the outcomes `outcomes` have been reported, in order.
    pub open spec fn after_all(self, outcomes: Seq<Outcome>) -> DataReadyWait
        decreases outcomes.len(),
    {
        if outcomes.len() == 0 {
            self
        } else {
            self.after(outcomes[0]).after_all(outcomes.drop_first())
        }
    }

    /// The largest number of steps that the wait may still take.
    pub open spec fn steps_left(self) -> nat {
        match self.stage {
            ReadyStage::SampleRise => 2 * self.left as nat + 2 + 2 * self.bound as nat + 2,
            ReadyStage::PauseRise => 2 * self.left as nat + 1 + 2 * self.bound as nat + 2,
            ReadyStage::SampleFall => 2 * self.left as nat + 2,
            ReadyStage::PauseFall => 2 * self.left as nat + 1,
            _ => 0,
        }
    }

    /// Starts a wait in which each phase takes at most `bound` samples
    /// beyond its first.
    pub fn new(bound: u32) -> (wait: Self)
        ensures
            wait == Self::start(bound),
    {
        DataReadyWait { stage: ReadyStage::SampleRise, left: bound, bound }
    }

    /// Whether the wait has come to an end.
    pub fn is_finished(&self) -> (done: bool)
        ensures
            done == self.finished(),
    {
        match self.stage {
            ReadyStage::Ready => true,
            ReadyStage::TimedOut => true,
            ReadyStage::Failed => true,
            _ => false,
        }
    }

    /// Whether the signal went high and then low within the bound.
    pub fn is_ready(&self) -> (ready: bool)
        ensures
            ready == (self.stage == ReadyStage::Ready),
    {
        match self.stage {
            ReadyStage::Ready => true,
            _ => false,
        }
    }

    /// The action to perform next. A wait that has ended asks for nothing.
    pub fn action(&self) -> (a: Action)
        ensures
            a@ == self.next_action(),
    {
        match self.stage {
            ReadyStage::SampleRise => Action::Sample,
            ReadyStage::PauseRise => Action::Pause(RISE_PAUSE_MICROS),
            ReadyStage::SampleFall => Action::Sample,
            ReadyStage::PauseFall => Action::Pause(FALL_PAUSE_MICROS),
            ReadyStage::Ready => Action::Halt,
            ReadyStage::TimedOut => Action::Halt,
            ReadyStage::Failed => Action::Halt,
        }
    }

    /// Takes the result of the action that [`action`](Self::action) named.
    pub fn advance(&mut self, event: &Event)
        ensures
            *final(self) == old(self).after(event@),
    {
        if self.is_finished() {
            return ;
        }
        let action = self.action();
        if !fits(event, &action) {
            self.stage = ReadyStage::Failed;
            return ;
        }
        let level: bool = match event {
            Event::Sampled(level) => *level,
            _ => false,
        };
        match self.stage {
            ReadyStage::SampleRise => {
                if level {
                    self.stage = ReadyStage::SampleFall;
                    self.left = self.bound;
                } else {
                    self.stage = ReadyStage::PauseRise;
                }
            },
            ReadyStage::PauseRise => {
                if self.left == 0 {
                    self.stage = ReadyStage::TimedOut;
                } else {
                    self.stage = ReadyStage::SampleRise;
                    self.left = self.left - 1;
                }
            },
            ReadyStage::SampleFall => {
                if !level {
                    self.stage = ReadyStage::Ready;
                } else {
                    self.stage = ReadyStage::PauseFall;
                }
            },
            ReadyStage::PauseFall => {
                if self.left == 0 {
                    self.stage = ReadyStage::TimedOut;
                } else {
                    self.stage = ReadyStage::SampleFall;
                    self.left = self.left - 1;
                }
            },
            _ => {},
        }
    }
}

/// A wait starts with at most `4 * bound + 4` steps ahead of it.
pub proof fn lemma_ready_budget(bound: u32)
    ensures
        DataReadyWait::start(bound).steps_left() == 4 * bound + 4,
{
}

/// Every step brings the end of the wait nearer, whatever is reported.
pub proof fn lemma_ready_step_makes_progress(wait: DataReadyWait, outcome: Outcome)
    requires
        !wait.finished(),
        wait.left <= wait.bound,
    ensures
        wait.after(outcome).steps_left() < wait.steps_left(),
        wait.after(outcome).left <= wait.after(outcome).bound,
        wait.after(outcome).bound == wait.bound,
{
}

/// The wait has come to an end once as many results have been reported as
/// it had steps left, whatever they were.
pub proof fn lemma_ready_wait_ends(wait: DataReadyWait, outcomes: Seq<Outcome>)
    requires
        wait.left <= wait.bound,
        outcomes.len() >= wait.steps_left(),
    ensures
        wait.after_all(outcomes).finished(),
    decreases outcomes.len(),
{
    if outcomes.len() > 0 {
        if wait.finished() {
            lemma_ready_ended_is_stable(wait, outcomes);
        } else {
            lemma_ready_step_makes_progress(wait, outcomes[0]);
            lemma_ready_wait_ends(wait.after(outcomes[0]), outcomes.drop_first());
        }
    }
}

/// A wait that has ended stays as it is.
pub proof fn lemma_ready_ended_is_stable(wait: DataReadyWait, outcomes: Seq<Outcome>)
    requires
        wait.finished(),
    ensures
        wait.after_all(outcomes) == wait,
    decreases outcomes.len(),
{
    if outcomes.len() > 0 {
        lemma_ready_ended_is_stable(wait, outcomes.drop_first());
    }
}

/// A frame is reported ready only on a low sample that follows a high one:
/// the step that ends the wait as ready is a low sample taken after the
/// signal had been seen high.
pub proof fn lemma_ready_needs_fall(wait: DataReadyWait, outcome: Outcome)
    requires
        wait.stage != ReadyStage::Ready,
        wait.after(outcome).stage == ReadyStage::Ready,
    ensures
        wait.stage == ReadyStage::SampleFall,
        outcome == Outcome::Sampled(false),
{
}

/// The wait leaves its first phase only on a high sample.
pub proof fn lemma_fall_needs_rise(wait: DataReadyWait, outcome: Outcome)
    requires
        wait.stage == ReadyStage::SampleRise || wait.stage == ReadyStage::PauseRise,
        wait.after(outcome).stage == ReadyStage::SampleFall,
    ensures
        wait.stage == ReadyStage::SampleRise,
        outcome == Outcome::Sampled(true),
{
}

/// What is reported while the signal keeps its level: `rounds` times a
/// sample that shows `level` and the end of the pause after it, and then
/// `rest`.
pub open spec fn rounds_then(level: bool, rounds: nat, rest: Seq<Outcome>) -> Seq<Outcome>
    decreases rounds,
{
    if rounds == 0 {
        rest
    } else {
        followed(
            Outcome::Sampled(level),
            followed(Outcome::Paused, rounds_then(level, (rounds - 1) as nat, rest)),
        )
    }
}

/// While the signal stays low the wait goes on sampling: after `rounds`
/// low samples, no more than it has left, it stands where it stood with as
/// many samples less.
pub proof fn lemma_ready_stays_low(wait: DataReadyWait, rounds: nat, rest: Seq<Outcome>)
    requires
        wait.stage == ReadyStage::SampleRise,
        rounds <= wait.left,
    ensures
        wait.after_all(rounds_then(false, rounds, rest)) == (DataReadyWait {
            left: (wait.left - rounds) as u32,
            ..wait
        }).after_all(rest),
    decreases rounds,
{
    if rounds > 0 {
        let tail = rounds_then(false, (rounds - 1) as nat, rest);
        lemma_two_steps(wait, Outcome::Sampled(false), Outcome::Paused, tail);
        lemma_ready_stays_low(
            wait.after(Outcome::Sampled(false)).after(Outcome::Paused),
            (rounds - 1) as nat,
            rest,
        );
    }
}

/// While the signal stays high after it rose the wait goes on sampling:
/// after `rounds` high samples, no more than it has left, it stands where it
/// stood with as many samples less.
pub proof fn lemma_ready_stays_high(wait: DataReadyWait, rounds: nat, rest: Seq<Outcome>)
    requires
        wait.stage == ReadyStage::SampleFall,
        rounds <= wait.left,
    ensures
        wait.after_all(rounds_then(true, rounds, rest)) == (DataReadyWait {
            left: (wait.left - rounds) as u32,
            ..wait
        }).after_all(rest),
    decreases rounds,
{
    if rounds > 0 {
        let tail = rounds_then(true, (rounds - 1) as nat, rest);
        lemma_two_steps(wait, Outcome::Sampled(true), Outcome::Paused, tail);
        lemma_ready_stays_high(
            wait.after(Outcome::Sampled(true)).after(Outcome::Paused),
            (rounds - 1) as nat,
            rest,
        );
    }
}

/// Where the signal never rises, the wait takes `bound + 1` samples, each
/// followed by a pause, and then times out.
pub proof fn lemma_ready_times_out(bound: u32)
    ensures
        DataReadyWait::start(bound).after_all(rounds_then(false, bound as nat + 1, seq![])).stage
            == ReadyStage::TimedOut,
        forall|rounds: nat|
            rounds <= bound ==> !(#[trigger] DataReadyWait::start(bound).after_all(
                rounds_then(false, rounds, seq![]),
            )).finished(),
{
    let start = DataReadyWait::start(bound);
    let last = rounds_then(false, 1, seq![]);
    assert(last == followed(Outcome::Sampled(false), followed(Outcome::Paused, seq![]))) by {
        reveal_with_fuel(rounds_then, 2);
    }
    lemma_rounds_add(false, bound as nat, 1, seq![]);
    lemma_ready_stays_low(start, bound as nat, last);
    let spent = DataReadyWait { left: 0, ..start };
    lemma_two_steps(spent, Outcome::Sampled(false), Outcome::Paused, seq![]);
    assert(spent.after(Outcome::Sampled(false)).after(Outcome::Paused).after_all(seq![]).stage
        == ReadyStage::TimedOut);
    assert forall|rounds: nat| rounds <= bound implies !(#[trigger] start.after_all(
        rounds_then(false, rounds, seq![]),
    )).finished() by {
        lemma_ready_stays_low(start, rounds, seq![]);
        assert((DataReadyWait { left: (bound - rounds) as u32, ..start }).after_all(seq![]).stage
            == ReadyStage::SampleRise);
    }
}

/// Where the signal rises within the bound and falls within the bound after
/// that, the wait ends as ready on the first low sample after the rise.
pub proof fn lemma_ready_comes(bound: u32, low: nat, high: nat)
    requires
        low <= bound,
        high <= bound,
    ensures
        DataReadyWait::start(bound).after_all(
            rounds_then(
                false,
                low,
                followed(
                    Outcome::Sampled(true),
                    rounds_then(true, high, seq![Outcome::Sampled(false)]),
                ),
            ),
        ).stage == ReadyStage::Ready,
{
    let start = DataReadyWait::start(bound);
    let fall = seq![Outcome::Sampled(false)];
    let after_rise = rounds_then(true, high, fall);
    lemma_ready_stays_low(start, low, followed(Outcome::Sampled(true), after_rise));
    let waiting = DataReadyWait { left: (bound - low) as u32, ..start };
    lemma_one_step(waiting, Outcome::Sampled(true), after_rise);
    let risen = waiting.after(Outcome::Sampled(true));
    lemma_ready_stays_high(risen, high, fall);
    let falling = DataReadyWait { left: (bound - high) as u32, ..risen };
    assert(fall =~= followed(Outcome::Sampled(false), seq![]));
    lemma_one_step(falling, Outcome::Sampled(false), seq![]);
    assert(falling.after(Outcome::Sampled(false)).after_all(seq![]).stage == ReadyStage::Ready);
}

/// Rounds on rounds are rounds: `first` rounds and then `second` rounds are
/// `first + second` rounds.
pub proof fn lemma_rounds_add(level: bool, first: nat, second: nat, rest: Seq<Outcome>)
    ensures
        rounds_then(level, first, rounds_then(level, second, rest)) == rounds_then(
            level,
            first + second,
            rest,
        ),
    decreases first,
{
    if first > 0 {
        lemma_rounds_add(level, (first - 1) as nat, second, rest);
    }
}

/// The wait after a result and further results is the wait after the result,
/// after the further results.
pub proof fn lemma_one_step(wait: DataReadyWait, first: Outcome, rest: Seq<Outcome>)
    ensures
        wait.after_all(followed(first, rest)) == wait.after(first).after_all(rest),
{
    let all = followed(first, rest);
    assert(all[0] == first);
    assert(all.drop_first() =~= rest);
}

/// Two steps of the wait, taken one after the other.
pub proof fn lemma_two_steps(
    wait: DataReadyWait,
    first: Outcome,
    second: Outcome,
    rest: Seq<Outcome>,
)
    ensures
        wait.after_all(followed(first, followed(second, rest))) == wait.after(first).after(
            second,
        ).after_all(rest),
{
    lemma_one_step(wait, first, followed(second, rest));
    lemma_one_step(wait.after(first), second, rest);
}

} // verus!
