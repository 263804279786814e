//! Spans of time and the bound that a client puts on every blocking wait.

use vstd::prelude::*;

verus! {

/// Nanoseconds in one second.
pub const NANOS_PER_SEC: u128 = 1_000_000_000;

/// Nanoseconds in one millisecond.
pub const NANOS_PER_MILLI: u128 = 1_000_000;

/// Seconds that a client waits for a response unless told otherwise.
pub const DEFAULT_TIMEOUT_SECS: u64 = 30;

/// A length of time in whole nanoseconds.
#[derive(Clone, Copy, Debug, PartialEq, Eq, Structural)]
pub struct Span {
    pub nanos: u128,
}

impl View for Span {
    type V = nat;

    open spec fn view(&self) -> nat {
        self.nanos as nat
    }
}

impl Span {
    /// The span of `secs` seconds.
    pub fn from_secs(secs: u64) -> (span: Span)
        ensures
            span@ == secs * NANOS_PER_SEC,
    {
        let wide: u128 = secs as u128;
        Span { nanos: wide * NANOS_PER_SEC }
    }

    /// The span of `millis` milliseconds.
    pub fn from_millis(millis: u64) -> (span: Span)
        ensures
            span@ == millis * NANOS_PER_MILLI,
    {
        let wide: u128 = millis as u128;
        Span { nanos: wide * NANOS_PER_MILLI }
    }

    /// The span of `nanos` nanoseconds.
    pub fn from_nanos(nanos: u128) -> (span: Span)
        ensures
            span@ == nanos,
    {
        Span { nanos }
    }

    /// The length of the span in nanoseconds.
    pub fn as_nanos(&self) -> (nanos: u128)
        ensures
            nanos == self@,
    {
        self.nanos
    }

    /// What is left of `self` once `spent` has passed: zero when `spent`
    /// reaches or exceeds `self`.
    pub fn remaining_after(&self, spent: Span) -> (left: Span)
        ensures
            left@ == if spent@ >= self@ { 0 } else { self@ - spent@ },
    {
        if spent.nanos >= self.nanos {
            Span { nanos: 0 }
        } else {
            Span { nanos: self.nanos - spent.nanos }
        }
    }
}

/// The bound on a blocking wait: `None` waits without limit.
///
/// The bound covers the whole wait of a caller, connecting, writing and
/// reading taken together, and is measured on the caller's clock.
#[derive(Clone, Copy, Debug, PartialEq, Eq, Structural)]
pub struct Timeout(pub Option<Span>);

impl View for Timeout {
    type V = Option<nat>;

    open spec fn view(&self) -> Option<nat> {
        match self.0 {
            Some(span) => Some(span@),
            None => None,
        }
    }
}

/// The limit of a client that was given no timeout, in nanoseconds.
pub open spec fn default_limit() -> nat {
    (DEFAULT_TIMEOUT_SECS * NANOS_PER_SEC) as nat
}

impl Default for Timeout {
    /// Thirty seconds.
    fn default() -> (timeout: Timeout)
        ensures
            timeout@ == Some(default_limit()),
    {
        Timeout(Some(Span::from_secs(DEFAULT_TIMEOUT_SECS)))
    }
}

impl Timeout {
    /// A wait without limit.
    pub fn unbounded() -> (timeout: Timeout)
        ensures
            timeout@ == None::<nat>,
    {
        Timeout(None)
    }

    /// A wait of at most `span`.
    pub fn bounded(span: Span) -> (timeout: Timeout)
        ensures
            timeout@ == Some(span@),
    {
        Timeout(Some(span))
    }

    /// Whether a wait that has lasted `elapsed` has used up the bound.
    pub fn expired(&self, elapsed: Span) -> (gone: bool)
        ensures
            gone == expired_at(self@, elapsed@),
    {
        match self.0 {
            Some(limit) => elapsed.nanos >= limit.nanos,
            None => false,
        }
    }
}

/// A wait bounded by `limit` has run out once `elapsed` reaches the limit; a
/// wait without limit never runs out.
pub open spec fn expired_at(limit: Option<nat>, elapsed: nat) -> bool {
    match limit {
        Some(l) => elapsed >= l,
        None => false,
    }
}

} // verus!
