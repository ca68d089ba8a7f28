//! The condition waiter: fluent configuration plus the driving loop.
//!
//! An [`ElementWaiter`] is a value describing one wait: the polling
//! strategy, the error-tolerance flag and the timeout message. Its
//! terminal operation hands back a [`WaitDriver`], the state machine
//! that decides, evaluation by evaluation, what happens next. The
//! caller performs each demanded action — evaluate a predicate against
//! the remote resource, or pause — and reports the outcome back; the
//! driver never touches the resource, the clock or a sleep itself.
//!
//! One pass evaluates the predicates in listed order, short-circuiting
//! on the first that does not hold; a pass where every predicate holds
//! ends the wait with success. A failed pass asks the ticker for
//! another round. An evaluation error is treated as "not yet satisfied"
//! when the waiter tolerates errors, and aborts the wait at once when
//! it does not.

use vstd::prelude::*;

use crate::poller::ElementPoller;
use crate::poller::ElementPollerTicker;
use crate::poller::TickDecision;
use crate::WaitError;

verus! {

/// What one predicate evaluation reported.
#[derive(Debug, Clone, Copy, PartialEq, Eq, Structural)]
pub enum EvalOutcome {
    /// The predicate held.
    Pass,
    /// The predicate did not hold.
    Fail,
    /// Evaluating the predicate raised an error (remote failure, stale
    /// reference, transport fault).
    Error,
}

/// What the driver asks the caller to do next.
#[derive(Debug, Clone, Copy, PartialEq, Eq, Structural)]
pub enum WaitCommand {
    /// Evaluate the predicate at this position and report its outcome.
    Evaluate { index: usize },
    /// Pause `delay_ms`, then evaluate the first predicate again and
    /// report its outcome.
    SleepThenEvaluate { delay_ms: u64 },
    /// Every predicate held on this pass: the wait succeeded.
    Succeed,
    /// The schedule is exhausted: the wait failed with a timeout.
    Timeout,
    /// An evaluation error must be propagated to the caller unchanged:
    /// the wait is abandoned with zero retries.
    Abort,
}

/// Where a drive stands.
#[derive(Debug, Clone, Copy, PartialEq, Eq, Structural)]
pub enum WaitStatus {
    /// Awaiting the outcome of the predicate at `index`.
    Running { index: usize },
    /// Every predicate held on one pass.
    Succeeded,
    /// The schedule ran out before every predicate held.
    TimedOut,
    /// An evaluation error ended the wait (error tolerance off).
    Aborted,
}

/// The state machine that drives one wait operation.
///
/// Created by [`ElementWaiter::begin`]; consumed by reporting outcomes
/// through [`WaitDriver::on_outcome`] until the status leaves
/// `Running`. `evaluations` counts the outcomes reported so far.
pub struct WaitDriver {
    ticker: ElementPollerTicker,
    n_conditions: usize,
    tolerate_errors: bool,
    status: WaitStatus,
    evaluations: Ghost<nat>,
}

impl WaitDriver {
    /// How many predicates one pass evaluates.
    pub closed spec fn n_conditions(self) -> usize {
        self.n_conditions
    }

    /// Whether evaluation errors are absorbed as "not yet satisfied".
    pub closed spec fn tolerate_errors(self) -> bool {
        self.tolerate_errors
    }

    /// Where the drive stands.
    pub closed spec fn status(self) -> WaitStatus {
        self.status
    }

    /// The ticker walking this wait's schedule.
    pub closed spec fn ticker(self) -> ElementPollerTicker {
        self.ticker
    }

    /// How many predicate evaluations have been reported so far.
    pub closed spec fn evaluations(self) -> nat {
        self.evaluations@
    }

    /// Driver well-formedness: a running drive always awaits a position
    /// inside the predicate list, and its ticker is well formed.
    pub open spec fn wf(self) -> bool {
        &&& self.ticker().wf()
        &&& self.ticker().poller() == self.poller()
        &&& 0 < self.n_conditions()
        &&& self.status() matches WaitStatus::Running { index } ==> index < self.n_conditions()
    }

    /// The strategy this drive polls under.
    pub closed spec fn poller(self) -> ElementPoller {
        self.ticker.poller()
    }

    /// The command a report produces, as a pure function of the
    /// driver's state, the outcome and the reported elapsed time.
    ///
    /// A `Pass` moves to the next predicate, or succeeds after the
    /// last. A `Fail` — or an `Error` under tolerance — ends the pass
    /// and asks the ticker for another round. An `Error` without
    /// tolerance aborts at once.
    pub open spec fn spec_command(self, outcome: EvalOutcome, elapsed_ms: u64) -> WaitCommand
        recommends
            self.status() is Running,
    {
        let index = self.status()->Running_index;
        if outcome is Pass {
            if index + 1 < self.n_conditions() {
                WaitCommand::Evaluate { index: (index + 1) as usize }
            } else {
                WaitCommand::Succeed
            }
        } else if outcome is Error && !self.tolerate_errors() {
            WaitCommand::Abort
        } else {
            match self.ticker().spec_tick_decision(elapsed_ms) {
                TickDecision::Proceed { delay_ms } => WaitCommand::SleepThenEvaluate { delay_ms },
                TickDecision::Stop => WaitCommand::Timeout,
            }
        }
    }

    /// The status that goes with each command.
    pub open spec fn spec_status_after(self, outcome: EvalOutcome, elapsed_ms: u64) -> WaitStatus
        recommends
            self.status() is Running,
    {
        match self.spec_command(outcome, elapsed_ms) {
            WaitCommand::Evaluate { index } => WaitStatus::Running { index },
            WaitCommand::SleepThenEvaluate { delay_ms } => WaitStatus::Running { index: 0 },
            WaitCommand::Succeed => WaitStatus::Succeeded,
            WaitCommand::Timeout => WaitStatus::TimedOut,
            WaitCommand::Abort => WaitStatus::Aborted,
        }
    }

    /// Report the outcome of the evaluation the driver was awaiting,
    /// together with the wall-clock milliseconds elapsed since the wait
    /// began, and receive the next command.
    pub fn on_outcome(&mut self, outcome: EvalOutcome, elapsed_ms: u64) -> (r: WaitCommand)
        requires
            old(self).wf(),
            old(self).status() is Running,
        ensures
            final(self).wf(),
            r == old(self).spec_command(outcome, elapsed_ms),
            final(self).status() == old(self).spec_status_after(outcome, elapsed_ms),
            final(self).n_conditions() == old(self).n_conditions(),
            final(self).tolerate_errors() == old(self).tolerate_errors(),
            final(self).poller() == old(self).poller(),
            final(self).evaluations() == old(self).evaluations() + 1,
            r is Abort || r is Evaluate || r is Succeed ==> final(self).ticker() == old(
                self,
            ).ticker(),
            r is SleepThenEvaluate ==> final(self).ticker().granted()
                == old(self).ticker().granted() + 1,
            r is Timeout ==> final(self).ticker().stopped() && final(self).ticker().granted()
                == old(self).ticker().granted(),
    {
        proof {
            self.evaluations@ = self.evaluations@ + 1;
        }
        let index = match self.status {
            WaitStatus::Running { index } => index,
            _ => 0,
        };
        match outcome {
            EvalOutcome::Pass => {
                if index + 1 < self.n_conditions {
                    self.status = WaitStatus::Running { index: index + 1 };
                    WaitCommand::Evaluate { index: index + 1 }
                } else {
                    self.status = WaitStatus::Succeeded;
                    WaitCommand::Succeed
                }
            },
            EvalOutcome::Error if !self.tolerate_errors => {
                self.status = WaitStatus::Aborted;
                WaitCommand::Abort
            },
            _ => {
                match self.ticker.tick(elapsed_ms) {
                    TickDecision::Proceed { delay_ms } => {
                        self.status = WaitStatus::Running { index: 0 };
                        WaitCommand::SleepThenEvaluate { delay_ms }
                    },
                    TickDecision::Stop => {
                        self.status = WaitStatus::TimedOut;
                        WaitCommand::Timeout
                    },
                }
            },
        }
    }
}

/// A value describing one wait over a remote resource: strategy, error
/// tolerance and the message a timeout failure carries. The resource
/// itself stays with the caller; the waiter only decides.
#[derive(Debug, Clone)]
pub struct ElementWaiter {
    poller: ElementPoller,
    message: String,
    tolerate_errors: bool,
}

impl ElementWaiter {
    /// The polling strategy this waiter uses.
    pub closed spec fn poller(self) -> ElementPoller {
        self.poller
    }

    /// The message a timeout failure will carry, verbatim.
    pub closed spec fn message(self) -> Seq<char> {
        self.message@
    }

    /// Whether evaluation errors are absorbed as "not yet satisfied".
    pub closed spec fn tolerate_errors(self) -> bool {
        self.tolerate_errors
    }

    /// Make a waiter with the given strategy and timeout message.
    /// Error tolerance starts on.
    pub fn new(poller: ElementPoller, message: String) -> (r: Self)
        ensures
            r.poller() == poller,
            r.message() == message@,
            r.tolerate_errors(),
    {
        ElementWaiter {
            poller,
            message,
            tolerate_errors: true,
        }
    }

    /// Use the given strategy for this wait only; everything else is
    /// kept.
    pub fn with_poller(self, poller: ElementPoller) -> (r: Self)
        ensures
            r.poller() == poller,
            r.message() == self.message(),
            r.tolerate_errors() == self.tolerate_errors(),
    {
        ElementWaiter {
            poller,
            ..self
        }
    }

    /// Choose whether errors raised while evaluating a predicate are
    /// absorbed as "not yet satisfied" (`true`, the default) or abort
    /// the wait at once (`false`).
    pub fn ignore_errors(self, ignore: bool) -> (r: Self)
        ensures
            r.poller() == self.poller(),
            r.message() == self.message(),
            r.tolerate_errors() == ignore,
    {
        ElementWaiter {
            tolerate_errors: ignore,
            ..self
        }
    }

    /// Poll under a wall-clock deadline of `timeout_ms`, pausing
    /// `interval_ms` between attempts, for this wait only.
    pub fn wait(self, timeout_ms: u64, interval_ms: u64) -> (r: Self)
        ensures
            r.poller() == (ElementPoller::TimeoutWithInterval { timeout_ms, interval_ms }),
            r.message() == self.message(),
            r.tolerate_errors() == self.tolerate_errors(),
    {
        self.with_poller(ElementPoller::TimeoutWithInterval { timeout_ms, interval_ms })
    }

    /// The timeout failure this waiter reports, carrying its message.
    pub fn timeout_error(&self) -> (r: WaitError)
        ensures
            r is Timeout,
            r->Timeout_0@ == self.message(),
    {
        WaitError::Timeout(self.message.clone())
    }

    /// Start driving `n_conditions` predicates under this waiter's
    /// schedule. An empty predicate list is misuse and is rejected
    /// before any polling; otherwise the driver awaits the first
    /// predicate's outcome — one evaluation always runs before any
    /// delay, whatever the strategy.
    pub fn begin(&self, n_conditions: usize) -> (r: Result<WaitDriver, WaitError>)
        ensures
            r is Ok <==> 0 < n_conditions,
            r is Err ==> r->Err_0 is Misconfigured,
            r is Ok ==> {
                let d = r->Ok_0;
                &&& d.wf()
                &&& d.status() == (WaitStatus::Running { index: 0 })
                &&& d.n_conditions() == n_conditions
                &&& d.tolerate_errors() == self.tolerate_errors()
                &&& d.poller() == self.poller()
                &&& d.evaluations() == 0
                &&& d.ticker().granted() == 0
                &&& !d.ticker().stopped()
            },
    {
        if n_conditions == 0 {
            return Err(WaitError::Misconfigured);
        }
        Ok(WaitDriver {
            ticker: ElementPollerTicker::new(self.poller.clone()),
            n_conditions,
            tolerate_errors: self.tolerate_errors,
            status: WaitStatus::Running { index: 0 },
            evaluations: Ghost(0),
        })
    }
}

/// The outcome of a negated condition ("not displayed", "lacks
/// class"): pass and fail swap, while an evaluation error stays an
/// error — negation applies to the condition's answer, never to a
/// failure to obtain one.
pub fn negate_outcome(outcome: EvalOutcome) -> (r: EvalOutcome)
    ensures
        outcome is Pass ==> r is Fail,
        outcome is Fail ==> r is Pass,
        outcome is Error ==> r is Error,
{
    match outcome {
        EvalOutcome::Pass => EvalOutcome::Fail,
        EvalOutcome::Fail => EvalOutcome::Pass,
        EvalOutcome::Error => EvalOutcome::Error,
    }
}

/// The outcome a predicate answer maps to: a held condition passes, an
/// unheld one fails, and `None` stands for an evaluation that raised
/// an error.
pub fn outcome_of(answer: Option<bool>) -> (r: EvalOutcome)
    ensures
        answer == Some(true) ==> r is Pass,
        answer == Some(false) ==> r is Fail,
        answer is None ==> r is Error,
{
    match answer {
        Some(true) => EvalOutcome::Pass,
        Some(false) => EvalOutcome::Fail,
        None => EvalOutcome::Error,
    }
}

/// Law: passes short-circuit. On any report whose outcome is not
/// `Pass`, the driver never asks for a later predicate of the same
/// pass: the only commands it can give are a pause before a fresh pass,
/// a timeout, or an abort. In particular, with predicates `[p1, p2]`,
/// `p2` is never evaluated on a pass where `p1` did not hold.
pub proof fn lemma_short_circuit(d: WaitDriver, outcome: EvalOutcome, elapsed_ms: u64)
    requires
        d.wf(),
        d.status() is Running,
        !(outcome is Pass),
    ensures
        !(d.spec_command(outcome, elapsed_ms) is Evaluate),
        !(d.spec_command(outcome, elapsed_ms) is Succeed),
{
}

/// Law: the next predicate of a pass is requested only after the
/// current one held, and it is exactly the next one in listed order.
pub proof fn lemma_in_order(d: WaitDriver, outcome: EvalOutcome, elapsed_ms: u64, j: usize)
    requires
        d.wf(),
        d.status() is Running,
        d.spec_command(outcome, elapsed_ms) == (WaitCommand::Evaluate { index: j }),
    ensures
        outcome is Pass,
        j == d.status()->Running_index + 1,
{
}

/// Law: with error tolerance off, the first evaluation error ends the
/// wait at once: the command is `Abort`, the drive is `Aborted`, and
/// the ticker is never consulted, so zero retries follow.
pub proof fn lemma_intolerant_aborts(d: WaitDriver, elapsed_ms: u64)
    requires
        d.wf(),
        d.status() is Running,
        !d.tolerate_errors(),
    ensures
        d.spec_command(EvalOutcome::Error, elapsed_ms) == WaitCommand::Abort,
        d.spec_status_after(EvalOutcome::Error, elapsed_ms) == WaitStatus::Aborted,
{
}

/// Law: with error tolerance on, an evaluation error is treated
/// exactly like a predicate that did not hold — same command, same
/// status — so polling continues as long as the schedule allows.
pub proof fn lemma_tolerated_error_is_fail(d: WaitDriver, elapsed_ms: u64)
    requires
        d.wf(),
        d.status() is Running,
        d.tolerate_errors(),
    ensures
        d.spec_command(EvalOutcome::Error, elapsed_ms)
            == d.spec_command(EvalOutcome::Fail, elapsed_ms),
        d.spec_status_after(EvalOutcome::Error, elapsed_ms)
            == d.spec_status_after(EvalOutcome::Fail, elapsed_ms),
{
}

/// Law: a single predicate that errors while the schedule still grants
/// rounds, then holds, ends the wait in success. In particular, under
/// tolerance, transient errors on the first attempts followed by a pass
/// give success — after exactly those attempts — not an error.
pub proof fn lemma_transient_errors_recover(d: WaitDriver, elapsed_ms: u64)
    requires
        d.wf(),
        d.status() is Running,
        d.tolerate_errors(),
        d.n_conditions() == 1,
        d.ticker().spec_tick_decision(elapsed_ms) is Proceed,
    ensures
        d.spec_command(EvalOutcome::Error, elapsed_ms) is SleepThenEvaluate,
        d.spec_status_after(EvalOutcome::Error, elapsed_ms) == (WaitStatus::Running { index: 0 }),
        d.spec_command(EvalOutcome::Pass, elapsed_ms) == WaitCommand::Succeed,
        d.spec_status_after(EvalOutcome::Pass, elapsed_ms) == WaitStatus::Succeeded,
{
}

/// Law: under `FixedCount`, retries consume a bounded budget: the
/// ticker never grants more than `max_attempts` fresh passes beyond
/// the first, and a fresh pass is only ever granted while budget
/// remains. With a single predicate this bounds the evaluations by
/// `max_attempts + 1`.
pub proof fn lemma_fixed_count_pass_budget(d: WaitDriver, outcome: EvalOutcome, elapsed_ms: u64)
    requires
        d.wf(),
        d.status() is Running,
        d.poller() is FixedCount,
    ensures
        d.ticker().granted() <= d.poller()->FixedCount_max_attempts,
        d.spec_command(outcome, elapsed_ms) is SleepThenEvaluate ==> d.ticker().granted()
            < d.poller()->FixedCount_max_attempts,
{
    crate::poller::lemma_fixed_count_budget(d.ticker(), elapsed_ms);
}

/// Law: under `NoWait`, the first report that is not a pass ends the
/// wait with a timeout: the single permitted evaluation is never
/// followed by another, and no delay is ever demanded.
pub proof fn lemma_no_wait_times_out(d: WaitDriver, outcome: EvalOutcome, elapsed_ms: u64)
    requires
        d.wf(),
        d.status() is Running,
        d.poller() is NoWait,
        !d.ticker().stopped(),
        !(outcome is Pass),
        !(outcome is Error && !d.tolerate_errors()),
    ensures
        d.spec_command(outcome, elapsed_ms) == WaitCommand::Timeout,
        d.spec_status_after(outcome, elapsed_ms) == WaitStatus::TimedOut,
{
}

} // verus!
