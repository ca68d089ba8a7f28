//! Polling strategies and the ticker that walks a schedule.
//!
//! A strategy is an immutable description of how attempts are spaced; a
//! ticker is the single-use cursor that advances through the schedule.
//! The ticker never sleeps or reads a clock itself: the caller reports
//! the elapsed wall-clock time and performs the pause the ticker asks
//! for, so every decision here is a pure function of the ticker's state
//! and that report.
//!
//! One evaluation is always permitted before the first tick, whatever
//! the strategy says: the driving loops evaluate once, then ask the
//! ticker whether another round is allowed.

use vstd::prelude::*;

verus! {

/// How repeated attempts are spaced. Durations are in milliseconds.
#[derive(Debug, Clone, Copy, PartialEq, Eq, Structural)]
pub enum ElementPoller {
    /// A single attempt with no delay and no retry.
    NoWait,
    /// Up to `max_attempts` retries after the initial attempt, pausing
    /// `interval_ms` before each. A `max_attempts` of zero means exactly
    /// one evaluation.
    FixedCount { interval_ms: u64, max_attempts: u32 },
    /// Retries every `interval_ms` until the next attempt would start
    /// at or past `timeout_ms` after the wait began. A `timeout_ms` of
    /// zero means exactly one evaluation.
    TimeoutWithInterval { timeout_ms: u64, interval_ms: u64 },
}

/// The ticker's answer to "may another attempt run?".
#[derive(Debug, Clone, Copy, PartialEq, Eq, Structural)]
pub enum TickDecision {
    /// Pause `delay_ms`, then perform the next evaluation.
    Proceed { delay_ms: u64 },
    /// The schedule is exhausted; no further evaluation may run.
    Stop,
}

/// A single-use cursor over a polling schedule.
///
/// `granted` counts the ticks that answered [`TickDecision::Proceed`];
/// `delays` records, in order, the pause each of those ticks demanded.
/// Once the ticker answers [`TickDecision::Stop`] it is stopped for
/// good: the schedule never resets.
pub struct ElementPollerTicker {
    poller: ElementPoller,
    tries: u32,
    stopped: bool,
    granted: Ghost<nat>,
    delays: Ghost<Seq<u64>>,
}

impl ElementPollerTicker {
    /// The strategy this ticker walks.
    pub closed spec fn poller(self) -> ElementPoller {
        self.poller
    }

    /// How many ticks have answered `Proceed` so far.
    pub closed spec fn granted(self) -> nat {
        self.granted@
    }

    /// Whether the ticker has answered `Stop`.
    pub closed spec fn stopped(self) -> bool {
        self.stopped
    }

    /// The pauses demanded so far, one per granted tick, in order.
    pub closed spec fn delays(self) -> Seq<u64> {
        self.delays@
    }

    /// Ticker well-formedness: the recorded pauses agree with the
    /// strategy, and a bounded strategy never grants past its budget.
    /// Established by [`Self::new`] and preserved by [`Self::tick`].
    pub closed spec fn wf(self) -> bool {
        &&& self.delays().len() == self.granted()
        &&& match self.poller() {
            ElementPoller::NoWait => self.granted() == 0,
            ElementPoller::FixedCount { interval_ms, max_attempts } => {
                &&& self.granted() <= max_attempts
                &&& self.tries == self.granted()
                &&& forall|i: int|
                    0 <= i < self.delays().len() ==> self.delays()[i] == interval_ms
            },
            ElementPoller::TimeoutWithInterval { timeout_ms, interval_ms } => {
                forall|i: int| 0 <= i < self.delays().len() ==> self.delays()[i] == interval_ms
            },
        }
    }

    /// What a tick answers, given the elapsed milliseconds the caller
    /// reports: `Proceed` with the strategy's pause while budget
    /// remains, `Stop` once it does not, and `Stop` forever once
    /// stopped.
    pub open spec fn spec_tick_decision(self, elapsed_ms: u64) -> TickDecision {
        if self.stopped() {
            TickDecision::Stop
        } else {
            match self.poller() {
                ElementPoller::NoWait => TickDecision::Stop,
                ElementPoller::FixedCount { interval_ms, max_attempts } => {
                    if self.granted() < max_attempts {
                        TickDecision::Proceed { delay_ms: interval_ms }
                    } else {
                        TickDecision::Stop
                    }
                },
                ElementPoller::TimeoutWithInterval { timeout_ms, interval_ms } => {
                    if interval_ms < timeout_ms && elapsed_ms < timeout_ms - interval_ms {
                        TickDecision::Proceed { delay_ms: interval_ms }
                    } else {
                        TickDecision::Stop
                    }
                },
            }
        }
    }

    /// Make a fresh ticker for one walk of the given schedule.
    pub fn new(poller: ElementPoller) -> (r: Self)
        ensures
            r.wf(),
            r.poller() == poller,
            r.granted() == 0,
            !r.stopped(),
            r.delays() == Seq::<u64>::empty(),
    {
        ElementPollerTicker {
            poller,
            tries: 0,
            stopped: false,
            granted: Ghost(0),
            delays: Ghost(Seq::empty()),
        }
    }

    /// Ask whether another evaluation attempt may run, `elapsed_ms`
    /// milliseconds after the wait began. On `Proceed { delay_ms }` the
    /// caller must pause `delay_ms` before that evaluation; on `Stop`
    /// no further evaluation is allowed, now or ever.
    pub fn tick(&mut self, elapsed_ms: u64) -> (r: TickDecision)
        requires
            old(self).wf(),
        ensures
            final(self).wf(),
            r == old(self).spec_tick_decision(elapsed_ms),
            final(self).poller() == old(self).poller(),
            r is Proceed ==> {
                &&& final(self).granted() == old(self).granted() + 1
                &&& final(self).delays() == old(self).delays().push(r->Proceed_delay_ms)
                &&& !final(self).stopped()
            },
            r is Stop ==> {
                &&& final(self).granted() == old(self).granted()
                &&& final(self).delays() == old(self).delays()
                &&& final(self).stopped()
            },
    {
        if self.stopped {
            return TickDecision::Stop;
        }
        match self.poller {
            ElementPoller::NoWait => {
                self.stopped = true;
                TickDecision::Stop
            },
            ElementPoller::FixedCount { interval_ms, max_attempts } => {
                if self.tries < max_attempts {
                    self.tries = self.tries + 1;
                    proof {
                        self.granted@ = self.granted@ + 1;
                        self.delays@ = self.delays@.push(interval_ms);
                    }
                    TickDecision::Proceed { delay_ms: interval_ms }
                } else {
                    self.stopped = true;
                    TickDecision::Stop
                }
            },
            ElementPoller::TimeoutWithInterval { timeout_ms, interval_ms } => {
                if interval_ms < timeout_ms && elapsed_ms < timeout_ms - interval_ms {
                    proof {
                        self.granted@ = self.granted@ + 1;
                        self.delays@ = self.delays@.push(interval_ms);
                    }
                    TickDecision::Proceed { delay_ms: interval_ms }
                } else {
                    self.stopped = true;
                    TickDecision::Stop
                }
            },
        }
    }
}

/// The sum of a sequence of pauses, in milliseconds.
pub open spec fn total_delay(delays: Seq<u64>) -> int
    decreases delays.len(),
{
    if delays.len() == 0 {
        0
    } else {
        total_delay(delays.drop_last()) + delays.last()
    }
}

/// A sequence of `n` equal pauses sums to `n` times the pause.
pub proof fn lemma_total_delay_constant(delays: Seq<u64>, interval_ms: u64)
    requires
        forall|i: int| 0 <= i < delays.len() ==> delays[i] == interval_ms,
    ensures
        total_delay(delays) == delays.len() * interval_ms,
    decreases delays.len(),
{
    if delays.len() == 0 {
    } else {
        lemma_total_delay_constant(delays.drop_last(), interval_ms);
        assert(delays.len() * interval_ms
            == (delays.len() - 1) * interval_ms + interval_ms) by (nonlinear_arith);
    }
}

/// Law: the schedule never resets. Once a tick answers `Stop`, every
/// later tick on the same ticker answers `Stop` too, whatever elapsed
/// times are reported.
pub proof fn lemma_tick_monotonic(t: ElementPollerTicker, elapsed_ms: u64, later_ms: u64)
    requires
        t.wf(),
        t.stopped(),
    ensures
        t.spec_tick_decision(elapsed_ms) is Stop,
        t.spec_tick_decision(later_ms) is Stop,
{
}

/// Law: a `NoWait` ticker never grants a retry, so the one evaluation
/// performed before the first tick is the only one, and no pause is
/// ever demanded.
pub proof fn lemma_no_wait_single_attempt(t: ElementPollerTicker, elapsed_ms: u64)
    requires
        t.wf(),
        t.poller() is NoWait,
    ensures
        t.spec_tick_decision(elapsed_ms) is Stop,
        t.delays() == Seq::<u64>::empty(),
        total_delay(t.delays()) == 0,
{
    assert(t.delays() =~= Seq::<u64>::empty());
}

/// Law: a `FixedCount` ticker grants at most `max_attempts` retries, so
/// at most `max_attempts + 1` evaluations run in all, and when the whole
/// budget is spent the demanded pauses sum to exactly
/// `max_attempts * interval_ms`.
pub proof fn lemma_fixed_count_budget(t: ElementPollerTicker, elapsed_ms: u64)
    requires
        t.wf(),
        t.poller() is FixedCount,
    ensures
        t.granted() <= t.poller()->FixedCount_max_attempts,
        total_delay(t.delays()) == t.granted() * t.poller()->FixedCount_interval_ms,
        t.granted() == t.poller()->FixedCount_max_attempts
            ==> t.spec_tick_decision(elapsed_ms) is Stop,
{
    lemma_total_delay_constant(t.delays(), t.poller()->FixedCount_interval_ms);
}

/// Law: a `TimeoutWithInterval` ticker grants a retry only when the
/// retry's nominal start — the reported elapsed time plus the pause it
/// demands — lies strictly before the deadline. The evaluation
/// performed before the first tick is not gated, so even a deadline
/// shorter than one interval allows one evaluation.
pub proof fn lemma_deadline_bounds_next_start(t: ElementPollerTicker, elapsed_ms: u64)
    requires
        t.wf(),
        t.poller() is TimeoutWithInterval,
        t.spec_tick_decision(elapsed_ms) is Proceed,
    ensures
        t.spec_tick_decision(elapsed_ms)->Proceed_delay_ms
            == t.poller()->TimeoutWithInterval_interval_ms,
        elapsed_ms + t.spec_tick_decision(elapsed_ms)->Proceed_delay_ms
            < t.poller()->TimeoutWithInterval_timeout_ms,
{
}

} // verus!
