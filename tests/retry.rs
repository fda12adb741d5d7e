use browser_steps::config::{Step, StepAction};
use browser_steps::outcome::BrowserOutcome;
use browser_steps::retry::{Move, RetryLoop, RetryVerdict};

fn step(wait_max: u64, delay: u64) -> Step {
    Step {
        name: String::new(),
        action: StepAction::Refresh,
        if_cond: String::new(),
        if_not_cond: String::new(),
        optional: false,
        logging: true,
        wait_max,
        delay,
    }
}

/// Drives a retry loop whose attempts always give `failure`, with a clock
/// that advances only by the pauses and by `attempt_ms` per attempt.
fn drive(step: &Step, failure: BrowserOutcome, attempt_ms: u64) -> (Result<(), BrowserOutcome>, u64, Vec<Move>) {
    let mut lp = RetryLoop::new(step);
    let mut clock: u64 = 0;
    let mut moves = Vec::new();
    loop {
        let m = lp.next_move();
        moves.push(m);
        match m {
            Move::Pause(ms) => clock += ms,
            Move::Attempt => {
                clock += attempt_ms;
                match lp.after_attempt(Err(failure.clone()), clock) {
                    RetryVerdict::Finished(r) => return (r, clock, moves),
                    RetryVerdict::Retry => {}
                }
            }
        }
    }
}

#[test]
fn failing_step_runs_out_its_budget() {
    let s = step(1000, 0);
    let failure = BrowserOutcome::NoSuchElement("#x".to_string());
    let (result, elapsed, moves) = drive(&s, failure.clone(), 30);
    assert_eq!(result, Err(failure));
    assert!(elapsed >= 1000);
    assert_eq!(moves.len(), 34);
}

#[test]
fn failure_within_budget_is_retried() {
    let lp = RetryLoop::new(&step(500, 0));
    let e = BrowserOutcome::MatchURLFail("a".to_string());
    assert_eq!(lp.after_attempt(Err(e.clone()), 499), RetryVerdict::Retry);
    assert_eq!(lp.after_attempt(Err(e.clone()), 500), RetryVerdict::Finished(Err(e)));
    assert_eq!(lp.after_attempt(Ok(()), 10), RetryVerdict::Finished(Ok(())));
}

#[test]
fn zero_budget_means_one_attempt() {
    let (result, _, moves) = drive(&step(0, 0), BrowserOutcome::NoSuchElement("n".to_string()), 0);
    assert_eq!(result, Err(BrowserOutcome::NoSuchElement("n".to_string())));
    assert_eq!(moves, vec![Move::Attempt]);
}

#[test]
fn each_attempt_follows_a_pause() {
    let (_, elapsed, moves) = drive(&step(100, 40), BrowserOutcome::NoSuchElement("n".to_string()), 0);
    assert_eq!(
        moves,
        vec![Move::Pause(40), Move::Attempt, Move::Pause(40), Move::Attempt, Move::Pause(40), Move::Attempt]
    );
    assert_eq!(elapsed, 120);
}

#[test]
fn no_delay_means_no_pause() {
    let mut lp = RetryLoop::new(&step(100, 0));
    assert_eq!(lp.next_move(), Move::Attempt);
    assert_eq!(lp.next_move(), Move::Attempt);
}

#[test]
fn every_failure_is_retried_within_budget() {
    let lp = RetryLoop::new(&step(10_000, 0));
    for e in [
        BrowserOutcome::Timeout,
        BrowserOutcome::Unexpected("x".to_string()),
        BrowserOutcome::ClientLost,
        BrowserOutcome::EarlyEnd,
    ] {
        assert_eq!(lp.after_attempt(Err(e.clone()), 0), RetryVerdict::Retry);
        assert_eq!(lp.after_attempt(Err(e.clone()), 10_000), RetryVerdict::Finished(Err(e)));
    }
}

#[test]
fn end_step_spends_its_budget() {
    let (result, elapsed, moves) = drive(&step(5, 0), BrowserOutcome::EarlyEnd, 1);
    assert_eq!(result, Err(BrowserOutcome::EarlyEnd));
    assert_eq!(elapsed, 5);
    assert_eq!(moves.len(), 5);
}

#[test]
fn success_after_timeouts_ends_retries() {
    let mut lp = RetryLoop::new(&step(1000, 0));
    assert_eq!(lp.next_move(), Move::Attempt);
    assert_eq!(lp.after_attempt(Err(BrowserOutcome::Timeout), 300), RetryVerdict::Retry);
    assert_eq!(lp.next_move(), Move::Attempt);
    assert_eq!(lp.after_attempt(Ok(()), 600), RetryVerdict::Finished(Ok(())));
}
