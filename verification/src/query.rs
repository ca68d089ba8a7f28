//! The chained element query: an ordered list of selector
//! alternatives, polled under the same ticker machinery as the waiter.
//!
//! On each pass the selectors are tried in listed order against the
//! remote session; the first that resolves wins. "Does not exist" is
//! the inverted reading: a pass succeeds when every selector resolves
//! to nothing. As with the waiter, the caller performs the remote
//! fetches and the pauses and reports back; the driver only decides.

use vstd::prelude::*;

use crate::poller::ElementPoller;
use crate::poller::ElementPollerTicker;
use crate::poller::TickDecision;
use crate::WaitError;

verus! {

/// The ways a selector can address an element.
#[derive(Debug, Clone, Copy, PartialEq, Eq, Structural)]
pub enum SelectorKind {
    Css,
    Id,
    XPath,
    Tag,
    Name,
    ClassName,
    LinkText,
}

/// One selector alternative: how to address the element and the text
/// of the address.
#[derive(Debug, Clone)]
pub struct Selector {
    pub kind: SelectorKind,
    pub target: String,
}

impl Selector {
    /// A selector of the given kind for the given target text.
    pub fn new(kind: SelectorKind, target: String) -> (r: Self)
        ensures
            r.kind == kind,
            r.target@ == target@,
    {
        Selector { kind, target }
    }
}

/// What one selector fetch reported.
#[derive(Debug, Clone, Copy, PartialEq, Eq, Structural)]
pub enum FetchOutcome {
    /// The selector resolved to at least one element.
    Found,
    /// The selector resolved to nothing.
    Absent,
    /// The fetch raised an error (remote failure, transport fault).
    Error,
}

/// What the query driver asks the caller to do next.
#[derive(Debug, Clone, Copy, PartialEq, Eq, Structural)]
pub enum QueryCommand {
    /// Fetch with the selector at this position and report the outcome.
    Fetch { index: usize },
    /// Pause `delay_ms`, then fetch with the first selector again.
    SleepThenFetch { delay_ms: u64 },
    /// The selector at `index` resolved: the query found its element.
    Resolved { index: usize },
    /// Every selector resolved to nothing on this pass: the inverted
    /// query succeeded.
    AllAbsent,
    /// The schedule is exhausted without the sought pass.
    Exhausted,
    /// A fetch error must be propagated to the caller unchanged.
    Abort,
}

/// Where a query drive stands.
#[derive(Debug, Clone, Copy, PartialEq, Eq, Structural)]
pub enum QueryStatus {
    /// Awaiting the outcome of the selector at `index`.
    Running { index: usize },
    /// Finished: the matching command was given.
    Finished,
}

/// The state machine that drives one query.
///
/// `inverted` is false when the query seeks the first selector that
/// resolves, true when it seeks a pass on which every selector
/// resolves to nothing.
pub struct QueryDriver {
    ticker: ElementPollerTicker,
    n_selectors: usize,
    inverted: bool,
    tolerate_errors: bool,
    status: QueryStatus,
    fetches: Ghost<nat>,
}

impl QueryDriver {
    /// How many selector alternatives one pass tries.
    pub closed spec fn n_selectors(self) -> usize {
        self.n_selectors
    }

    /// Whether the query seeks "every selector absent" instead of
    /// "some selector resolves".
    pub closed spec fn inverted(self) -> bool {
        self.inverted
    }

    /// Whether fetch errors are absorbed as "condition not yet met".
    pub closed spec fn tolerate_errors(self) -> bool {
        self.tolerate_errors
    }

    /// Where the drive stands.
    pub closed spec fn status(self) -> QueryStatus {
        self.status
    }

    /// The ticker walking this query's schedule.
    pub closed spec fn ticker(self) -> ElementPollerTicker {
        self.ticker
    }

    /// How many fetches have been reported so far.
    pub closed spec fn fetches(self) -> nat {
        self.fetches@
    }

    /// Driver well-formedness.
    pub open spec fn wf(self) -> bool {
        &&& self.ticker().wf()
        &&& 0 < self.n_selectors()
        &&& self.status() matches QueryStatus::Running { index } ==> index < self.n_selectors()
    }

    /// Whether this outcome satisfies the selector's goal on this pass:
    /// resolving for a plain query, being absent for an inverted one.
    pub open spec fn goal_met(self, outcome: FetchOutcome) -> bool {
        if self.inverted() {
            outcome is Absent
        } else {
            outcome is Found
        }
    }

    /// The command a report produces. For a plain query a resolving
    /// selector finishes at once and an absent one moves to the next
    /// alternative of the same pass; for an inverted query the roles
    /// swap, and only a pass on which every selector was absent
    /// finishes. A pass that misses its goal asks the ticker for
    /// another round; a fetch error aborts when tolerance is off and
    /// otherwise counts as "goal not met" for that selector.
    pub open spec fn spec_command(self, outcome: FetchOutcome, elapsed_ms: u64) -> QueryCommand
        recommends
            self.status() is Running,
    {
        let index = self.status()->Running_index;
        if outcome is Error && !self.tolerate_errors() {
            QueryCommand::Abort
        } else if self.inverted() {
            if self.goal_met(outcome) {
                if index + 1 < self.n_selectors() {
                    QueryCommand::Fetch { index: (index + 1) as usize }
                } else {
                    QueryCommand::AllAbsent
                }
            } else {
                self.pass_failed(elapsed_ms)
            }
        } else {
            if self.goal_met(outcome) {
                QueryCommand::Resolved { index }
            } else {
                if index + 1 < self.n_selectors() {
                    QueryCommand::Fetch { index: (index + 1) as usize }
                } else {
                    self.pass_failed(elapsed_ms)
                }
            }
        }
    }

    /// The command given when a whole pass missed its goal: another
    /// round if the ticker grants one, exhaustion if not.
    pub open spec fn pass_failed(self, elapsed_ms: u64) -> QueryCommand {
        match self.ticker().spec_tick_decision(elapsed_ms) {
            TickDecision::Proceed { delay_ms } => QueryCommand::SleepThenFetch { delay_ms },
            TickDecision::Stop => QueryCommand::Exhausted,
        }
    }

    /// The status that goes with each command.
    pub open spec fn spec_status_after(self, outcome: FetchOutcome, elapsed_ms: u64) -> QueryStatus
        recommends
            self.status() is Running,
    {
        match self.spec_command(outcome, elapsed_ms) {
            QueryCommand::Fetch { index } => QueryStatus::Running { index },
            QueryCommand::SleepThenFetch { delay_ms } => QueryStatus::Running { index: 0 },
            _ => QueryStatus::Finished,
        }
    }

    /// Report the outcome of the fetch the driver was awaiting,
    /// together with the milliseconds elapsed since the query began,
    /// and receive the next command.
    pub fn on_outcome(&mut self, outcome: FetchOutcome, elapsed_ms: u64) -> (r: QueryCommand)
        requires
            old(self).wf(),
            old(self).status() is Running,
        ensures
            final(self).wf(),
            r == old(self).spec_command(outcome, elapsed_ms),
            final(self).status() == old(self).spec_status_after(outcome, elapsed_ms),
            final(self).n_selectors() == old(self).n_selectors(),
            final(self).inverted() == old(self).inverted(),
            final(self).tolerate_errors() == old(self).tolerate_errors(),
            final(self).fetches() == old(self).fetches() + 1,
            r is Abort || r is Fetch || r is Resolved || r is AllAbsent ==> final(self).ticker()
                == old(self).ticker(),
            r is SleepThenFetch ==> final(self).ticker().granted() == old(
                self,
            ).ticker().granted() + 1,
            r is Exhausted ==> final(self).ticker().stopped() && final(self).ticker().granted()
                == old(self).ticker().granted(),
    {
        proof {
            self.fetches@ = self.fetches@ + 1;
        }
        let index = match self.status {
            QueryStatus::Running { index } => index,
            _ => 0,
        };
        let goal_met = if self.inverted {
            matches!(outcome, FetchOutcome::Absent)
        } else {
            matches!(outcome, FetchOutcome::Found)
        };
        if matches!(outcome, FetchOutcome::Error) && !self.tolerate_errors {
            self.status = QueryStatus::Finished;
            QueryCommand::Abort
        } else if self.inverted {
            if goal_met {
                if index + 1 < self.n_selectors {
                    self.status = QueryStatus::Running { index: index + 1 };
                    QueryCommand::Fetch { index: index + 1 }
                } else {
                    self.status = QueryStatus::Finished;
                    QueryCommand::AllAbsent
                }
            } else {
                self.tick_for_pass(elapsed_ms)
            }
        } else {
            if goal_met {
                self.status = QueryStatus::Finished;
                QueryCommand::Resolved { index }
            } else {
                if index + 1 < self.n_selectors {
                    self.status = QueryStatus::Running { index: index + 1 };
                    QueryCommand::Fetch { index: index + 1 }
                } else {
                    self.tick_for_pass(elapsed_ms)
                }
            }
        }
    }

    /// Ask the ticker for another round after a failed pass.
    fn tick_for_pass(&mut self, elapsed_ms: u64) -> (r: QueryCommand)
        requires
            old(self).wf(),
        ensures
            final(self).wf(),
            r == old(self).pass_failed(elapsed_ms),
            final(self).status() == (match r {
                QueryCommand::SleepThenFetch { delay_ms } => QueryStatus::Running { index: 0 },
                _ => QueryStatus::Finished,
            }),
            final(self).n_selectors() == old(self).n_selectors(),
            final(self).inverted() == old(self).inverted(),
            final(self).tolerate_errors() == old(self).tolerate_errors(),
            final(self).fetches() == old(self).fetches(),
            r is SleepThenFetch ==> final(self).ticker().granted() == old(
                self,
            ).ticker().granted() + 1,
            r is Exhausted ==> final(self).ticker().stopped() && final(self).ticker().granted()
                == old(self).ticker().granted(),
    {
        match self.ticker.tick(elapsed_ms) {
            TickDecision::Proceed { delay_ms } => {
                self.status = QueryStatus::Running { index: 0 };
                QueryCommand::SleepThenFetch { delay_ms }
            },
            TickDecision::Stop => {
                self.status = QueryStatus::Finished;
                QueryCommand::Exhausted
            },
        }
    }
}

/// A chained element query: the strategy, the ordered selector
/// alternatives, the error-tolerance flag and a human-readable
/// description for failure messages.
#[derive(Debug, Clone)]
pub struct ElementQuery {
    poller: ElementPoller,
    selectors: Vec<Selector>,
    tolerate_errors: bool,
    description: String,
}

impl ElementQuery {
    /// The polling strategy this query uses.
    pub closed spec fn poller(self) -> ElementPoller {
        self.poller
    }

    /// The selector alternatives, in the order they are tried.
    pub closed spec fn selectors(self) -> Seq<Selector> {
        self.selectors@
    }

    /// Whether fetch errors are absorbed as "condition not yet met".
    pub closed spec fn tolerate_errors(self) -> bool {
        self.tolerate_errors
    }

    /// The query's description.
    pub closed spec fn description(self) -> Seq<char> {
        self.description@
    }

    /// A query with one initial selector under the given strategy.
    /// Error tolerance starts on and the description empty.
    pub fn new(poller: ElementPoller, selector: Selector) -> (r: Self)
        ensures
            r.poller() == poller,
            r.selectors() == seq![selector],
            r.tolerate_errors(),
            r.description() == Seq::<char>::empty(),
    {
        let selectors = vec![selector];
        let r = ElementQuery {
            poller,
            selectors,
            tolerate_errors: true,
            description: String::new(),
        };
        proof {
            assert(r.selectors() =~= seq![selector]);
        }
        r
    }

    /// Add a fallback selector, tried after the ones already listed.
    pub fn or(self, selector: Selector) -> (r: Self)
        ensures
            r.poller() == self.poller(),
            r.selectors() == self.selectors().push(selector),
            r.tolerate_errors() == self.tolerate_errors(),
            r.description() == self.description(),
    {
        let mut selectors = self.selectors;
        selectors.push(selector);
        ElementQuery {
            selectors,
            ..self
        }
    }

    /// Set the description used in failure messages.
    pub fn desc(self, description: String) -> (r: Self)
        ensures
            r.poller() == self.poller(),
            r.selectors() == self.selectors(),
            r.tolerate_errors() == self.tolerate_errors(),
            r.description() == description@,
    {
        ElementQuery {
            description,
            ..self
        }
    }

    /// Use the given strategy for this query only.
    pub fn with_poller(self, poller: ElementPoller) -> (r: Self)
        ensures
            r.poller() == poller,
            r.selectors() == self.selectors(),
            r.tolerate_errors() == self.tolerate_errors(),
            r.description() == self.description(),
    {
        ElementQuery {
            poller,
            ..self
        }
    }

    /// Poll under a wall-clock deadline of `timeout_ms`, pausing
    /// `interval_ms` between passes, for this query only.
    pub fn wait(self, timeout_ms: u64, interval_ms: u64) -> (r: Self)
        ensures
            r.poller() == (ElementPoller::TimeoutWithInterval { timeout_ms, interval_ms }),
            r.selectors() == self.selectors(),
            r.tolerate_errors() == self.tolerate_errors(),
            r.description() == self.description(),
    {
        self.with_poller(ElementPoller::TimeoutWithInterval { timeout_ms, interval_ms })
    }

    /// Make a single pass with no waiting, for this query only.
    pub fn nowait(self) -> (r: Self)
        ensures
            r.poller() == ElementPoller::NoWait,
            r.selectors() == self.selectors(),
            r.tolerate_errors() == self.tolerate_errors(),
            r.description() == self.description(),
    {
        self.with_poller(ElementPoller::NoWait)
    }

    /// Choose whether fetch errors are absorbed (`true`, the default)
    /// or abort the query at once (`false`).
    pub fn ignore_errors(self, ignore: bool) -> (r: Self)
        ensures
            r.poller() == self.poller(),
            r.selectors() == self.selectors(),
            r.tolerate_errors() == ignore,
            r.description() == self.description(),
    {
        ElementQuery {
            tolerate_errors: ignore,
            ..self
        }
    }

    /// How many selector alternatives this query holds.
    pub fn selector_count(&self) -> (r: usize)
        ensures
            r == self.selectors().len(),
    {
        self.selectors.len()
    }

    /// The selector at a position, or `None` past the end.
    pub fn selector_at(&self, index: usize) -> (r: Option<&Selector>)
        ensures
            index < self.selectors().len() ==> r is Some && *r->Some_0 == self.selectors()[
                index as int
            ],
            index >= self.selectors().len() ==> r is None,
    {
        if index < self.selectors.len() {
            Some(&self.selectors[index])
        } else {
            None
        }
    }

    /// Start driving this query. An empty selector list is misuse and
    /// is rejected before any polling; otherwise the driver awaits the
    /// first selector's outcome — one pass always begins before any
    /// delay, whatever the strategy.
    pub fn begin(&self, inverted: bool) -> (r: Result<QueryDriver, WaitError>)
        ensures
            r is Ok <==> 0 < self.selectors().len(),
            r is Err ==> r->Err_0 is Misconfigured,
            r is Ok ==> {
                let d = r->Ok_0;
                &&& d.wf()
                &&& d.status() == (QueryStatus::Running { index: 0 })
                &&& d.n_selectors() == self.selectors().len()
                &&& d.inverted() == inverted
                &&& d.tolerate_errors() == self.tolerate_errors()
                &&& d.ticker().poller() == self.poller()
                &&& d.ticker().granted() == 0
                &&& !d.ticker().stopped()
                &&& d.fetches() == 0
            },
    {
        if self.selectors.len() == 0 {
            return Err(WaitError::Misconfigured);
        }
        Ok(QueryDriver {
            ticker: ElementPollerTicker::new(self.poller),
            n_selectors: self.selectors.len(),
            inverted,
            tolerate_errors: self.tolerate_errors,
            status: QueryStatus::Running { index: 0 },
            fetches: Ghost(0),
        })
    }
}

/// Law: the alternatives of one pass are tried in listed order, with
/// no pause between them: a plain query moves to selector `i + 1` in
/// the same pass exactly when selector `i` resolved to nothing, and
/// resolves at once — without waiting on any later alternative — the
/// moment a selector is found.
pub proof fn lemma_alternatives_in_order(d: QueryDriver, outcome: FetchOutcome, elapsed_ms: u64)
    requires
        d.wf(),
        d.status() is Running,
        !d.inverted(),
        d.tolerate_errors(),
    ensures
        outcome is Found ==> d.spec_command(outcome, elapsed_ms) == (QueryCommand::Resolved {
            index: d.status()->Running_index,
        }),
        !(outcome is Found) && d.status()->Running_index + 1 < d.n_selectors() ==> d.spec_command(
            outcome,
            elapsed_ms,
        ) == (QueryCommand::Fetch { index: (d.status()->Running_index + 1) as usize }),
{
}

/// Law: an inverted query succeeds exactly when a whole pass finds
/// nothing: reporting the last selector of a pass absent finishes with
/// `AllAbsent`, and a found selector never finishes the query early —
/// it only ends the pass.
pub proof fn lemma_inverted_needs_whole_pass(d: QueryDriver, outcome: FetchOutcome, elapsed_ms: u64)
    requires
        d.wf(),
        d.status() is Running,
        d.inverted(),
        d.tolerate_errors(),
    ensures
        outcome is Absent && d.status()->Running_index + 1 == d.n_selectors()
            ==> d.spec_command(outcome, elapsed_ms) == QueryCommand::AllAbsent,
        outcome is Found ==> !(d.spec_command(outcome, elapsed_ms) is AllAbsent)
            && !(d.spec_command(outcome, elapsed_ms) is Resolved),
{
}

} // verus!
