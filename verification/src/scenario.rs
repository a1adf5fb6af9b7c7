//! A whole chain of promises: the task that receives a settled value, hands it
//! on a fixed number of times, and logs the terminal outcome.
//!
//! [`Chain`] holds the task's decisions, one received value at a time, for a
//! caller that does the waiting itself: it awaits a handle, yields to the
//! scheduler, and then lets the chain take its turn with the value. [`run`] is
//! the same task carried out without waiting, and states the log that a whole
//! chain writes.

use tokio::sync::oneshot::Receiver;
use vstd::prelude::*;

use crate::chain::{chain_promise, settle};
use crate::channel::{receive, slot, Slot};
use crate::decimal::decimal;
use crate::lines::{progress_line, record, terminal, terminal_line};
use crate::settled::{Outcome, Settled};

verus! {

/// How often the success path hands its value on before it ends.
pub const SUCCESS_PATH_STEPS: usize = 2;

/// How often the failure path hands its value on before it ends.
pub const FAILURE_PATH_STEPS: usize = 1;

/// The task's standing: how many chain steps it has yet to take.
pub struct Chain {
    left: usize,
}

/// What the task does with a received value.
pub enum Step {
    /// The value was logged and handed on: its new handle is to be awaited,
    /// and the chain goes on with one step fewer.
    Await(Chain, Receiver<Settled>),
    /// The terminal outcome was logged: the task is over.
    Done,
}

/// The log of a whole chain for one settled value: a progress line for each
/// chain step, then the terminal line.
pub open spec fn transcript(outcome: Outcome, steps: nat) -> Seq<Seq<char>> {
    Seq::new(steps, |i: int| progress_line(outcome)).push(terminal_line(outcome))
}

impl Chain {
    /// The number of chain steps still to take.
    pub closed spec fn left(&self) -> nat {
        self.left as nat
    }

    /// A task that will hand its value on `steps` times.
    pub fn new(steps: usize) -> (chain: Chain)
        ensures
            chain.left() == steps,
    {
        Chain { left: steps }
    }

    /// The number of chain steps still to take.
    pub fn remaining(&self) -> (left: usize)
        ensures
            left == self.left(),
    {
        self.left
    }

    /// Takes one turn with the value just received.
    ///
    /// While chain steps are left, the value is handed on through
    /// [`chain_promise`], which logs its progress line, and the new handle is
    /// returned to be awaited. With none left, the terminal line is logged and
    /// the task is over: the chain is used up, so the terminal line is logged
    /// once.
    pub fn advance(self, value: Settled, log: &mut Vec<String>) -> (step: Step)
        ensures
            self.left() > 0 ==> {
                &&& step matches Step::Await(next, rx)
                &&& next.left() == self.left() - 1
                &&& slot(rx) == Slot::Filled(value@)
                &&& final(log).deep_view() == old(log).deep_view().push(progress_line(value@))
            },
            self.left() == 0 ==> {
                &&& step is Done
                &&& final(log).deep_view() == old(log).deep_view().push(terminal_line(value@))
            },
    {
        if self.left > 0 {
            let rx = chain_promise(value, log);
            Step::Await(Chain { left: self.left - 1 }, rx)
        } else {
            record(log, terminal(&value));
            Step::Done
        }
    }
}

/// Carries out a whole chain for `initial` with `steps` chain steps, and
/// returns its log.
///
/// The value is published, received, and handed on `steps` times, each time
/// through a fresh channel; after the last receive the terminal line is
/// logged.
pub fn run(initial: Settled, steps: usize) -> (log: Vec<String>)
    ensures
        log.deep_view() == transcript(initial@, steps as nat),
{
    let ghost outcome = initial@;
    let mut log: Vec<String> = Vec::new();
    let mut chain = Chain::new(steps);
    let mut rx = settle(initial);
    loop
        invariant
            outcome == initial@,
            slot(rx) == Slot::Filled(outcome),
            chain.left() <= steps,
            log.deep_view() == Seq::new(
                (steps - chain.left()) as nat,
                |i: int| progress_line(outcome),
            ),
        decreases chain.left(),
    {
        let value = match receive(&mut rx) {
            Ok(value) => value,
            Err(_) => unreached(),
        };
        match chain.advance(value, &mut log) {
            Step::Await(next, handle) => {
                chain = next;
                rx = handle;
            },
            Step::Done => {
                return log;
            },
        }
    }
}

/// The success path: a whole chain of [`SUCCESS_PATH_STEPS`] steps.
///
/// Started with `Success(n)` it logs the progress line of `n` once for each
/// of its two chain steps and then "Resolved to n".
pub fn success_path(initial: Settled) -> (log: Vec<String>)
    ensures
        log.deep_view() == transcript(initial@, SUCCESS_PATH_STEPS as nat),
        initial@ matches Outcome::Success(n) ==> log.deep_view() == seq![
            "Success! Resolved to value "@ + decimal(n),
            "Success! Resolved to value "@ + decimal(n),
            "Resolved to "@ + decimal(n),
        ],
{
    run(initial, SUCCESS_PATH_STEPS)
}

/// The failure path: a whole chain of [`FAILURE_PATH_STEPS`] steps.
///
/// Started with `Failure(e)` it logs the progress line of `e` for its one
/// chain step and then "Rejected to e".
pub fn failure_path(initial: Settled) -> (log: Vec<String>)
    ensures
        log.deep_view() == transcript(initial@, FAILURE_PATH_STEPS as nat),
        initial@ matches Outcome::Failure(message) ==> log.deep_view() == seq![
            "Failure! Rejected to error "@ + message,
            "Rejected to "@ + message,
        ],
{
    run(initial, FAILURE_PATH_STEPS)
}

/// A whole chain logs exactly one progress line for each chain step, all of
/// them the progress line of the value it was started with, and after them
/// the terminal line of that value, and nothing else.
pub proof fn lemma_transcript_lines(outcome: Outcome, steps: nat)
    ensures
        transcript(outcome, steps).len() == steps + 1,
        forall|i: int|
            0 <= i < steps ==> #[trigger] transcript(outcome, steps)[i] == progress_line(outcome),
        transcript(outcome, steps)[steps as int] == terminal_line(outcome),
{
}

/// For every integer `n` and every number of chain steps, a chain started
/// with `Success(n)` logs "Success! Resolved to value n" exactly once for each
/// chain step and then the terminal line "Resolved to n".
pub proof fn lemma_success_log(n: int, steps: nat)
    ensures
        transcript(Outcome::Success(n), steps).len() == steps + 1,
        forall|i: int|
            0 <= i < steps ==> #[trigger] transcript(Outcome::Success(n), steps)[i]
                == "Success! Resolved to value "@ + decimal(n),
        transcript(Outcome::Success(n), steps)[steps as int] == "Resolved to "@ + decimal(n),
{
    lemma_transcript_lines(Outcome::Success(n), steps);
}

/// For every message `e` and every number of chain steps, a chain started
/// with `Failure(e)` logs "Failure! Rejected to error e" exactly once for each
/// chain step and then the terminal line "Rejected to e".
pub proof fn lemma_failure_log(message: Seq<char>, steps: nat)
    ensures
        transcript(Outcome::Failure(message), steps).len() == steps + 1,
        forall|i: int|
            0 <= i < steps ==> #[trigger] transcript(Outcome::Failure(message), steps)[i]
                == "Failure! Rejected to error "@ + message,
        transcript(Outcome::Failure(message), steps)[steps as int] == "Rejected to "@ + message,
{
    lemma_transcript_lines(Outcome::Failure(message), steps);
}

} // verus!
