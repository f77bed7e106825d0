//! Running the state machines against a backend.
//!
//! The functions here run bring-up, configuration and receive attempts
//! against a recorded [`Backend`]. Nothing is assumed of what a backend
//! reports: whatever it reports, a run comes to an end within the budget of
//! the machine that it drives, every call made is the action that the
//! machine asked for, and the result is what the machine comes to for what
//! was reported.

use vstd::prelude::*;
use crate::afhds2::{
    lemma_configure_push, lemma_configure_step, lemma_configure_transcript_push, Afhds2, Progress,
    CONFIGURE_LEN,
};
use crate::backend::{Backend, Recorder};
use crate::report::{CalibrationReport, InitError};
use crate::scanner::{
    lemma_attempt_makes_progress, lemma_scan_after_all_push, lemma_scan_transcript_push, reports,
    Attempt, ChannelScanner,
};
use crate::sequencer::{
    lemma_after_all_push, lemma_step_makes_progress, lemma_transcript_push, CalibrationSequencer,
};
use crate::step::Outcome;

verus! {

/// Resets the chip, programs its registers and calibrates it, with
/// `auto_clear_bound` polls allowed to each wait for an auto-clearing bit.
///
/// The calls made are those of a run of the sequencer, one for each result
/// that the backend reported and no more than the sequencer's budget
/// allows. The run ends with the last of them and not before, and the
/// result is what the sequencer comes to for these results: the report
/// where the transport held, the error where it failed.
pub fn bring_up<B: Backend>(backend: &mut Recorder<B>, auto_clear_bound: u32) -> (result: Result<
    CalibrationReport,
    InitError,
>)
    ensures
        exists|outcomes: Seq<Outcome>|
            {
                &&& outcomes.len() <= CalibrationSequencer::start(auto_clear_bound).steps_left()
                &&& final(backend).log() == old(backend).log() + #[trigger] CalibrationSequencer::start(
                    auto_clear_bound,
                ).transcript(outcomes)
                &&& CalibrationSequencer::start(auto_clear_bound).after_all(outcomes).outcome_of()
                    == Some(result)
                &&& outcomes.len() > 0 && !CalibrationSequencer::start(auto_clear_bound).after_all(
                    outcomes.drop_last(),
                ).finished()
            },
{
    let ghost start = CalibrationSequencer::start(auto_clear_bound);
    let ghost mut outcomes: Seq<Outcome> = Seq::empty();
    let mut sequencer = CalibrationSequencer::new(auto_clear_bound);
    assert(start.after_all(outcomes) == start);
    assert(backend.log() =~= old(backend).log() + start.transcript(outcomes));
    loop
        invariant
            start == CalibrationSequencer::start(auto_clear_bound),
            sequencer == start.after_all(outcomes),
            backend.log() == old(backend).log() + start.transcript(outcomes),
            outcomes.len() > 0 ==> !start.after_all(outcomes.drop_last()).finished(),
            outcomes.len() + sequencer.steps_left() <= start.steps_left(),
        decreases sequencer.steps_left(),
    {
        match sequencer.outcome() {
            Some(result) => {
                return result;
            },
            None => {},
        }
        let action = sequencer.action();
        let event = backend.perform(&action);
        proof {
            lemma_step_makes_progress(sequencer, event@);
            lemma_after_all_push(start, outcomes, event@);
            lemma_transcript_push(start, outcomes, event@);
            assert(backend.log() =~= old(backend).log() + start.transcript(outcomes.push(event@)));
            assert(outcomes.push(event@).drop_last() =~= outcomes);
            outcomes = outcomes.push(event@);
        }
        sequencer.advance(&event);
    }
}

/// Makes one attempt to receive a frame, or finishes the one that is under
/// way, and says what it came to.
///
/// The calls made are those of a run of the scanner, one for each result
/// that the backend reported and no more than the attempt had steps left.
/// The last of these results is the one that ended the attempt, and the
/// scanner ends where they lead it, at the start of the next attempt.
pub fn poll_frame<B: Backend>(scanner: &mut ChannelScanner, backend: &mut Recorder<B>) -> (result:
    Attempt)
    ensures
        exists|outcomes: Seq<Outcome>|
            {
                &&& 0 < outcomes.len() <= old(scanner)@.steps_left()
                &&& final(backend).log() == old(backend).log() + #[trigger] old(scanner)@.transcript(
                    outcomes,
                )
                &&& old(scanner)@.first_verdict(outcomes.drop_last()) is None
                &&& reports(Some(result), old(scanner)@.first_verdict(outcomes), outcomes.last())
                &&& final(scanner)@ == old(scanner)@.after_all(outcomes)
            },
        final(scanner)@.wf(),
{
    let ghost start = scanner@;
    let ghost mut outcomes: Seq<Outcome> = Seq::empty();
    assert(start.after_all(outcomes) == start);
    assert(backend.log() =~= old(backend).log() + start.transcript(outcomes));
    loop
        invariant
            start == old(scanner)@,
            scanner@ == start.after_all(outcomes),
            backend.log() == old(backend).log() + start.transcript(outcomes),
            start.first_verdict(outcomes) is None,
            outcomes.len() + scanner@.steps_left() <= start.steps_left(),
        decreases scanner@.steps_left(),
    {
        let action = scanner.action();
        let event = backend.perform(&action);
        let ghost before = scanner@;
        proof {
            lemma_attempt_makes_progress(before, event@);
            lemma_scan_after_all_push(start, outcomes, event@);
            lemma_scan_transcript_push(start, outcomes, event@);
            assert(backend.log() =~= old(backend).log() + start.transcript(outcomes.push(event@)));
            assert(outcomes.push(event@).drop_last() =~= outcomes);
            outcomes = outcomes.push(event@);
        }
        match scanner.advance(&event) {
            Some(result) => {
                assert(outcomes.last() == event@);
                return result;
            },
            None => {},
        }
    }
}

/// Configures the radio for the link: performs the steps of the script in
/// order and stops with the error at the first that the backend does not
/// answer properly.
///
/// The calls made are those of a run of the configuration, one for each
/// result that the backend reported and no more than the script has steps.
/// The run ends with the last of them and not before, so that no call
/// follows a step that failed, and the result is what the configuration
/// comes to for these results.
pub fn configure<B: Backend>(link: &Afhds2, backend: &mut Recorder<B>) -> (result: Result<
    (),
    InitError,
>)
    ensures
        exists|outcomes: Seq<Outcome>|
            {
                &&& outcomes.len() <= CONFIGURE_LEN
                &&& final(backend).log() == old(backend).log() + #[trigger] Progress::start().transcript(
                    outcomes,
                )
                &&& Progress::start().after_all(outcomes).outcome_of() == Some(result)
                &&& outcomes.len() > 0 && !Progress::start().after_all(
                    outcomes.drop_last(),
                ).finished()
            },
{
    let ghost start = Progress::start();
    let ghost mut outcomes: Seq<Outcome> = Seq::empty();
    let mut run = link.configure_radio();
    assert(start.after_all(outcomes) == start);
    assert(backend.log() =~= old(backend).log() + start.transcript(outcomes));
    loop
        invariant
            start == Progress::start(),
            run@ == start.after_all(outcomes),
            backend.log() == old(backend).log() + start.transcript(outcomes),
            outcomes.len() > 0 ==> !start.after_all(outcomes.drop_last()).finished(),
            0 <= run@.done,
            outcomes.len() + run@.steps_left() <= CONFIGURE_LEN,
        decreases run@.steps_left(),
    {
        match run.outcome() {
            Some(result) => {
                return result;
            },
            None => {},
        }
        let event = backend.perform(run.action());
        proof {
            lemma_configure_step(run@, event@);
            lemma_configure_push(start, outcomes, event@);
            lemma_configure_transcript_push(start, outcomes, event@);
            assert(backend.log() =~= old(backend).log() + start.transcript(outcomes.push(event@)));
            assert(outcomes.push(event@).drop_last() =~= outcomes);
            outcomes = outcomes.push(event@);
        }
        run.advance(&event);
    }
}

} // verus!
