use element_waiter::poller::{ElementPoller, ElementPollerTicker, TickDecision};
use element_waiter::waiter::{ElementWaiter, EvalOutcome, WaitCommand};

/// Drive a single always-`outcome` predicate under the waiter's
/// schedule with a simulated clock: every demanded pause advances the
/// clock by exactly its delay. Returns the final command, the number
/// of evaluations performed and the simulated elapsed milliseconds.
fn drive_constant(waiter: ElementWaiter, outcome: EvalOutcome) -> (WaitCommand, u64, u64) {
    let mut driver = waiter.begin(1).expect("one predicate");
    let mut evaluations: u64 = 0;
    let mut elapsed: u64 = 0;
    loop {
        evaluations += 1;
        match driver.on_outcome(outcome, elapsed) {
            WaitCommand::Evaluate { .. } => {}
            WaitCommand::SleepThenEvaluate { delay_ms } => {
                elapsed += delay_ms;
            }
            done => return (done, evaluations, elapsed),
        }
        assert!(evaluations < 10_000, "schedule failed to terminate");
    }
}

#[test]
fn ticker_stop_is_permanent() {
    let mut t = ElementPollerTicker::new(ElementPoller::FixedCount {
        interval_ms: 10,
        max_attempts: 2,
    });
    assert_eq!(t.tick(0), TickDecision::Proceed { delay_ms: 10 });
    assert_eq!(t.tick(0), TickDecision::Proceed { delay_ms: 10 });
    assert_eq!(t.tick(0), TickDecision::Stop);
    // Once stopped, every later tick answers Stop, whatever the clock says.
    assert_eq!(t.tick(0), TickDecision::Stop);
    assert_eq!(t.tick(123_456), TickDecision::Stop);
}

#[test]
fn ticker_deadline_stop_is_permanent() {
    let mut t = ElementPollerTicker::new(ElementPoller::TimeoutWithInterval {
        timeout_ms: 100,
        interval_ms: 60,
    });
    assert_eq!(t.tick(0), TickDecision::Proceed { delay_ms: 60 });
    assert_eq!(t.tick(60), TickDecision::Stop);
    // An earlier clock reading cannot revive a stopped schedule.
    assert_eq!(t.tick(0), TickDecision::Stop);
}

#[test]
fn zero_timeout_means_one_evaluation() {
    let waiter = ElementWaiter::new(
        ElementPoller::TimeoutWithInterval {
            timeout_ms: 0,
            interval_ms: 0,
        },
        String::from("m"),
    );
    let (done, evaluations, elapsed) = drive_constant(waiter, EvalOutcome::Fail);
    assert_eq!(done, WaitCommand::Timeout);
    assert_eq!(evaluations, 1);
    assert_eq!(elapsed, 0);
}

#[test]
fn no_wait_single_attempt_no_delay() {
    let waiter = ElementWaiter::new(ElementPoller::NoWait, String::from("never"));
    let (done, evaluations, elapsed) = drive_constant(waiter, EvalOutcome::Fail);
    assert_eq!(done, WaitCommand::Timeout);
    assert_eq!(evaluations, 1);
    assert_eq!(elapsed, 0);
}

#[test]
fn no_wait_single_attempt_success() {
    let waiter = ElementWaiter::new(ElementPoller::NoWait, String::from("never"));
    let (done, evaluations, elapsed) = drive_constant(waiter, EvalOutcome::Pass);
    assert_eq!(done, WaitCommand::Succeed);
    assert_eq!(evaluations, 1);
    assert_eq!(elapsed, 0);
}

#[test]
fn fixed_count_attempts_and_delay() {
    let waiter = ElementWaiter::new(
        ElementPoller::FixedCount {
            interval_ms: 50,
            max_attempts: 3,
        },
        String::from("still failing"),
    );
    let (done, evaluations, elapsed) = drive_constant(waiter, EvalOutcome::Fail);
    assert_eq!(done, WaitCommand::Timeout);
    // max_attempts retries after the initial attempt.
    assert_eq!(evaluations, 3 + 1);
    // Each retry was preceded by one full interval.
    assert_eq!(elapsed, 3 * 50);
}

#[test]
fn fixed_count_zero_attempts_means_one_evaluation() {
    let waiter = ElementWaiter::new(
        ElementPoller::FixedCount {
            interval_ms: 50,
            max_attempts: 0,
        },
        String::from("m"),
    );
    let (done, evaluations, elapsed) = drive_constant(waiter, EvalOutcome::Fail);
    assert_eq!(done, WaitCommand::Timeout);
    assert_eq!(evaluations, 1);
    assert_eq!(elapsed, 0);
}

#[test]
fn deadline_never_starts_past_timeout() {
    let mut t = ElementPollerTicker::new(ElementPoller::TimeoutWithInterval {
        timeout_ms: 1000,
        interval_ms: 300,
    });
    let mut elapsed: u64 = 0;
    loop {
        match t.tick(elapsed) {
            TickDecision::Proceed { delay_ms } => {
                elapsed += delay_ms;
                // The nominal start of the granted attempt lies before the deadline.
                assert!(elapsed < 1000);
            }
            TickDecision::Stop => break,
        }
    }
    assert_eq!(elapsed, 900);
}

#[test]
fn deadline_shorter_than_interval_still_evaluates_once() {
    let waiter = ElementWaiter::new(
        ElementPoller::TimeoutWithInterval {
            timeout_ms: 10,
            interval_ms: 100,
        },
        String::from("m"),
    );
    let (done, evaluations, elapsed) = drive_constant(waiter, EvalOutcome::Fail);
    assert_eq!(done, WaitCommand::Timeout);
    assert_eq!(evaluations, 1);
    assert_eq!(elapsed, 0);
}

#[test]
fn second_condition_skipped_when_first_fails() {
    let waiter = ElementWaiter::new(
        ElementPoller::FixedCount {
            interval_ms: 5,
            max_attempts: 1,
        },
        String::from("m"),
    );
    let mut driver = waiter.begin(2).expect("two predicates");
    // First predicate of the pass fails: the second is never requested
    // on this pass.
    let cmd = driver.on_outcome(EvalOutcome::Fail, 0);
    assert_eq!(cmd, WaitCommand::SleepThenEvaluate { delay_ms: 5 });
    // The fresh pass starts at the first predicate again; only after it
    // passes is the second requested.
    let cmd = driver.on_outcome(EvalOutcome::Pass, 5);
    assert_eq!(cmd, WaitCommand::Evaluate { index: 1 });
    let cmd = driver.on_outcome(EvalOutcome::Pass, 5);
    assert_eq!(cmd, WaitCommand::Succeed);
}

#[test]
fn tolerated_errors_then_success() {
    let waiter = ElementWaiter::new(
        ElementPoller::FixedCount {
            interval_ms: 10,
            max_attempts: 5,
        },
        String::from("m"),
    );
    let mut driver = waiter.begin(1).expect("one predicate");
    // Transient errors on the first two attempts are absorbed.
    assert_eq!(
        driver.on_outcome(EvalOutcome::Error, 0),
        WaitCommand::SleepThenEvaluate { delay_ms: 10 }
    );
    assert_eq!(
        driver.on_outcome(EvalOutcome::Error, 10),
        WaitCommand::SleepThenEvaluate { delay_ms: 10 }
    );
    // The third attempt passes: overall success after exactly three
    // evaluations, not an error.
    assert_eq!(driver.on_outcome(EvalOutcome::Pass, 20), WaitCommand::Succeed);
}

#[test]
fn intolerant_error_aborts_immediately() {
    let waiter = ElementWaiter::new(
        ElementPoller::FixedCount {
            interval_ms: 10,
            max_attempts: 5,
        },
        String::from("m"),
    )
    .ignore_errors(false);
    let mut driver = waiter.begin(1).expect("one predicate");
    // The very first error ends the wait: no retry, no sleep.
    assert_eq!(driver.on_outcome(EvalOutcome::Error, 0), WaitCommand::Abort);
}

#[test]
fn timeout_scenario_carries_message_after_about_one_second() {
    let waiter = ElementWaiter::new(ElementPoller::NoWait, String::from("timeout msg"))
        .wait(1000, 100);
    let (done, evaluations, elapsed) = drive_constant(waiter.clone(), EvalOutcome::Fail);
    assert_eq!(done, WaitCommand::Timeout);
    // The schedule ends within one interval of the one-second deadline.
    assert!(elapsed >= 900 && elapsed <= 1000, "elapsed was {elapsed}");
    assert_eq!(evaluations, 10);
    let err = waiter.timeout_error();
    assert!(err.is_timeout());
    assert_eq!(err.message(), "timeout msg");
}

#[test]
fn empty_condition_list_is_misconfiguration() {
    let waiter = ElementWaiter::new(ElementPoller::NoWait, String::from("m"));
    let err = match waiter.begin(0) {
        Ok(_) => panic!("an empty predicate list must be rejected"),
        Err(e) => e,
    };
    assert!(!err.is_timeout());
    assert_eq!(err.message(), "");
}

#[test]
fn builder_overrides_apply_to_this_wait_only() {
    let base = ElementWaiter::new(ElementPoller::NoWait, String::from("m"));
    let overridden = base.clone().with_poller(ElementPoller::FixedCount {
        interval_ms: 7,
        max_attempts: 1,
    });
    let (_, evaluations, _) = drive_constant(base, EvalOutcome::Fail);
    assert_eq!(evaluations, 1);
    let (_, evaluations, elapsed) = drive_constant(overridden, EvalOutcome::Fail);
    assert_eq!(evaluations, 2);
    assert_eq!(elapsed, 7);
}
