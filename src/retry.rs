//! The retry loop of a single step.
//!
//! The caller drives the loop: it asks for the next move, pauses or makes an
//! attempt, and hands back the attempt's result together with the time that
//! has passed since the step began.
use vstd::prelude::*;
use crate::config::Step;
use crate::outcome::BrowserOutcome;

verus! {

/// The next thing to do for a step.
#[derive(Clone, Copy, Debug, PartialEq, Eq)]
pub enum Move {
    /// Sleep for the given number of milliseconds.
    Pause(u64),
    /// Make one attempt at the step's action.
    Attempt,
}

/// What follows an attempt.
#[derive(Debug, PartialEq, Eq)]
pub enum RetryVerdict {
    /// The step is over with this result.
    Finished(Result<(), BrowserOutcome>),
    /// The step is tried again.
    Retry,
}

/// The state of one step's retry loop.
#[derive(Clone, Copy, Debug, PartialEq, Eq)]
pub struct RetryLoop {
    /// The total retry budget in milliseconds.
    pub wait_max: u64,
    /// The pause before each attempt in milliseconds.
    pub delay: u64,
    /// Whether the pause before the coming attempt has been taken.
    pub paused: bool,
}

/// What follows an attempt with result `result`, `elapsed_ms` after the step began.
pub open spec fn verdict_after(
    wait_max: u64,
    result: Result<(), BrowserOutcome>,
    elapsed_ms: u64,
) -> RetryVerdict {
    match result {
        Ok(()) => RetryVerdict::Finished(Ok(())),
        Err(e) => if elapsed_ms < wait_max {
            RetryVerdict::Retry
        } else {
            RetryVerdict::Finished(Err(e))
        },
    }
}

impl RetryLoop {
    /// The move that the loop asks for in this state.
    pub open spec fn move_of(self) -> Move {
        if self.delay > 0 && !self.paused {
            Move::Pause(self.delay)
        } else {
            Move::Attempt
        }
    }

    /// The state after the move of this state.
    pub open spec fn after_move(self) -> RetryLoop {
        RetryLoop { paused: self.delay > 0 && !self.paused, ..self }
    }

    /// A fresh loop for `step`, before its first attempt.
    pub open spec fn fresh(step: Step) -> RetryLoop {
        RetryLoop { wait_max: step.wait_max, delay: step.delay, paused: false }
    }

    /// A fresh loop for `step`.
    pub fn new(step: &Step) -> (r: RetryLoop)
        ensures
            r == RetryLoop::fresh(*step),
    {
        RetryLoop { wait_max: step.wait_max, delay: step.delay, paused: false }
    }

    /// The next move: the step's pause first when it has one, then an attempt.
    pub fn next_move(&mut self) -> (r: Move)
        ensures
            r == old(self).move_of(),
            *final(self) == old(self).after_move(),
    {
        if self.delay > 0 && !self.paused {
            self.paused = true;
            Move::Pause(self.delay)
        } else {
            self.paused = false;
            Move::Attempt
        }
    }

    /// What follows an attempt with result `result`, `elapsed_ms` after the
    /// step began: success ends the step; a failure is retried while the
    /// budget lasts, and ends the step once it is spent.
    pub fn after_attempt(&self, result: Result<(), BrowserOutcome>, elapsed_ms: u64) -> (r: RetryVerdict)
        ensures
            r == verdict_after(self.wait_max, result, elapsed_ms),
    {
        match result {
            Ok(()) => RetryVerdict::Finished(Ok(())),
            Err(e) => {
                if elapsed_ms < self.wait_max {
                    RetryVerdict::Retry
                } else {
                    RetryVerdict::Finished(Err(e))
                }
            },
        }
    }
}

/// A step whose action keeps failing ends with that very failure, and only
/// once at least `wait_max` milliseconds have passed; it never ends in success.
pub proof fn lemma_retry_exhausts_budget(wait_max: u64, e: BrowserOutcome, elapsed_ms: u64)
    ensures
        verdict_after(wait_max, Err(e), elapsed_ms) != RetryVerdict::Finished(Ok(())),
        verdict_after(wait_max, Err(e), elapsed_ms) is Finished ==> elapsed_ms >= wait_max,
        elapsed_ms >= wait_max ==> verdict_after(wait_max, Err(e), elapsed_ms)
            == RetryVerdict::Finished(Err(e)),
{
}

/// With a budget of zero, the first attempt is the last.
pub proof fn lemma_zero_budget_single_attempt(result: Result<(), BrowserOutcome>, elapsed_ms: u64)
    ensures
        verdict_after(0, result, elapsed_ms) == RetryVerdict::Finished(result),
{
    if let Ok(u) = result {
        assert(u == ());
    }
}

/// With a delay `d > 0`, every attempt, the first and each retry, comes right
/// after a pause of `d`: a fresh loop and a loop that has just made an attempt
/// both ask for the pause, and a pause is always followed by an attempt. With
/// no delay, every move is an attempt.
pub proof fn lemma_pause_before_each_attempt(step: Step, s: RetryLoop)
    ensures
        !RetryLoop::fresh(step).paused,
        s.move_of() is Attempt ==> !s.after_move().paused,
        s.move_of() is Pause ==> s.after_move().move_of() is Attempt,
        !s.paused && s.delay > 0 ==> s.move_of() == Move::Pause(s.delay),
        s.delay == 0 ==> s.move_of() == Move::Attempt,
{
}

} // verus!
