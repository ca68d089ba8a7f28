//! A polling and condition-matching layer for a remote UI resource.
//!
//! The crate is organised bottom-up:
//! - [`poller`] holds the polling strategy and the ticker, the stateful
//!   cursor that decides whether another attempt is allowed and how long
//!   to pause before it;
//! - [`waiter`] holds the condition waiter: a fluent configuration value
//!   plus the driving state machine that evaluates predicates tick by
//!   tick until they all pass or the schedule runs out;
//! - [`matching`] holds the text patterns that the named conditions
//!   compare attribute, property and text values against;
//! - [`query`] holds the chained element query: an ordered list of
//!   selector alternatives polled under the same ticker machinery.
//!
//! Everything here is pure decision logic: the clock, the sleeps and the
//! remote calls are performed by the caller, which reports their results
//! back as events. That keeps the scheduling rules fully checkable.

use vstd::prelude::*;

pub mod matching;
pub mod poller;
pub mod query;
pub mod waiter;

verus! {

/// The failures a wait or query operation can end in.
#[derive(Debug, Clone, PartialEq, Eq)]
pub enum WaitError {
    /// The schedule was exhausted before the condition held; carries the
    /// caller-supplied message verbatim.
    Timeout(String),
    /// The operation was started with an empty predicate or selector
    /// list; detected before any polling happens.
    Misconfigured,
}

impl WaitError {
    /// True exactly when this is a timeout failure.
    pub fn is_timeout(&self) -> (r: bool)
        ensures
            r == (self is Timeout),
    {
        match self {
            WaitError::Timeout(_) => true,
            WaitError::Misconfigured => false,
        }
    }

    /// The message carried by a timeout failure, or an empty string.
    pub fn message(&self) -> (r: String)
        ensures
            self is Timeout ==> r@ == self->Timeout_0@,
            self is Misconfigured ==> r@ == Seq::<char>::empty(),
    {
        match self {
            WaitError::Timeout(m) => m.clone(),
            WaitError::Misconfigured => String::new(),
        }
    }
}

} // verus!
