//! The caller's blocking wait, one decision at a time.
//!
//! A caller polls what it waits for, reads its clock, and asks [`wait_step`]
//! what to do: return, or park the thread. The thread and the clock are the
//! caller's; the rule is here.

use vstd::prelude::*;
use crate::timeout::{Span, Timeout, default_limit, expired_at};

verus! {

/// What one poll of a pending computation gave.
#[derive(Debug, PartialEq, Eq)]
pub enum Polled<T> {
    Ready(T),
    Pending,
}

/// Why a wait ended without a value.
#[derive(Debug, PartialEq, Eq)]
pub enum Waited<E> {
    /// The bound of the wait ran out first.
    TimedOut,
    /// What was waited for failed by itself.
    Inner(E),
}

/// What a waiting caller does next.
#[derive(Debug, PartialEq, Eq)]
pub enum WaitStep<I, E> {
    /// Stop waiting with this result.
    Finish(Result<I, Waited<E>>),
    /// Park the thread until woken: for at most the given span, or, with
    /// `None`, for as long as it takes.
    Park(Option<Span>),
}

/// The rule of the wait. A result that is ready is returned, however late it
/// is. Otherwise a wait whose bound has run out ends as timed out, and any
/// other wait parks for what is left of its bound.
pub open spec fn wait_rule<I, E>(timeout: Timeout, polled: Polled<Result<I, E>>, elapsed: Span) -> WaitStep<I, E> {
    match polled {
        Polled::Ready(Ok(value)) => WaitStep::Finish(Ok(value)),
        Polled::Ready(Err(error)) => WaitStep::Finish(Err(Waited::Inner(error))),
        Polled::Pending => match timeout.0 {
            Some(limit) => if elapsed.nanos >= limit.nanos {
                WaitStep::Finish(Err(Waited::TimedOut))
            } else {
                WaitStep::Park(Some(Span { nanos: (limit.nanos - elapsed.nanos) as u128 }))
            },
            None => WaitStep::Park(None),
        },
    }
}

/// Decides the next step of a wait bounded by `timeout`, given what the last
/// poll returned and how long the wait has lasted.
pub fn wait_step<I, E>(timeout: Timeout, polled: Polled<Result<I, E>>, elapsed: Span) -> (step: WaitStep<I, E>)
    ensures
        step == wait_rule(timeout, polled, elapsed),
{
    match polled {
        Polled::Ready(Ok(value)) => WaitStep::Finish(Ok(value)),
        Polled::Ready(Err(error)) => WaitStep::Finish(Err(Waited::Inner(error))),
        Polled::Pending => match timeout.0 {
            Some(limit) => {
                if timeout.expired(elapsed) {
                    WaitStep::Finish(Err(Waited::TimedOut))
                } else {
                    WaitStep::Park(Some(limit.remaining_after(elapsed)))
                }
            },
            None => WaitStep::Park(None),
        },
    }
}

/// One turn of a waiting caller: what the poll gave, and the time since the
/// wait began when the caller read its clock.
pub struct Observation<I, E> {
    pub polled: Polled<Result<I, E>>,
    pub elapsed: Span,
}

/// The result of a wait that observes `turns` in order: the result of the
/// first turn at which the rule says to finish, or `None` while the caller
/// is still parked after the last of them.
pub open spec fn wait_outcome<I, E>(timeout: Timeout, turns: Seq<Observation<I, E>>) -> Option<Result<I, Waited<E>>>
    decreases turns.len(),
{
    if turns.len() == 0 {
        None
    } else {
        match wait_rule(timeout, turns[0].polled, turns[0].elapsed) {
            WaitStep::Finish(result) => Some(result),
            WaitStep::Park(_) => wait_outcome(timeout, turns.skip(1)),
        }
    }
}

/// Whether the first `upto` turns all found nothing ready before the bound
/// had run out.
pub open spec fn quiet_before<I, E>(timeout: Timeout, turns: Seq<Observation<I, E>>, upto: int) -> bool {
    forall|j: int| 0 <= j < upto ==> (#[trigger] turns[j]).polled is Pending && !expired_at(timeout@, turns[j].elapsed@)
}

/// A wait whose turns before `at` were all quiet ends with whatever the
/// rule says of turn `at`, if that turn finishes it.
proof fn lemma_outcome_at<I, E>(timeout: Timeout, turns: Seq<Observation<I, E>>, at: int)
    requires
        0 <= at < turns.len(),
        quiet_before(timeout, turns, at),
        wait_rule(timeout, turns[at].polled, turns[at].elapsed) is Finish,
    ensures
        wait_outcome(timeout, turns) == Some(wait_rule(timeout, turns[at].polled, turns[at].elapsed)->Finish_0),
    decreases at,
{
    if at > 0 {
        let rest = turns.skip(1);
        assert(turns[0].polled is Pending && !expired_at(timeout@, turns[0].elapsed@));
        assert(rest[at - 1] == turns[at]);
        assert forall|j: int| 0 <= j < at - 1 implies (#[trigger] rest[j]).polled is Pending && !expired_at(
            timeout@,
            rest[j].elapsed@,
        ) by {
            assert(rest[j] == turns[j + 1]);
        }
        lemma_outcome_at(timeout, rest, at - 1);
    }
}

/// A client with the default timeout returns the value of a reply that is
/// ready at a turn before which thirty seconds had not passed.
pub proof fn law_default_wait_returns_timely_reply<I, E>(
    timeout: Timeout,
    turns: Seq<Observation<I, E>>,
    at: int,
    value: I,
)
    requires
        timeout@ == Some(default_limit()),
        0 <= at < turns.len(),
        turns[at].polled == Polled::<Result<I, E>>::Ready(Ok(value)),
        forall|j: int| 0 <= j < at ==> (#[trigger] turns[j]).polled is Pending && turns[j].elapsed@ < default_limit(),
    ensures
        wait_outcome(timeout, turns) == Some(Ok::<I, Waited<E>>(value)),
{
    lemma_outcome_at(timeout, turns, at);
}

/// A wait bounded by `limit` that finds nothing ready, and reads its clock
/// for the first time at or past the limit at turn `at`, ends as timed out.
pub proof fn law_silent_wait_times_out<I, E>(timeout: Timeout, turns: Seq<Observation<I, E>>, at: int, limit: nat)
    requires
        timeout@ == Some(limit),
        0 <= at < turns.len(),
        forall|j: int| 0 <= j <= at ==> (#[trigger] turns[j]).polled is Pending,
        forall|j: int| 0 <= j < at ==> (#[trigger] turns[j]).elapsed@ < limit,
        turns[at].elapsed@ >= limit,
    ensures
        wait_outcome(timeout, turns) == Some(Err::<I, Waited<E>>(Waited::TimedOut)),
{
    lemma_outcome_at(timeout, turns, at);
}

/// A wait without a bound returns the value of the first reply that is ready,
/// however much time has passed.
pub proof fn law_unbounded_wait_returns_reply<I, E>(turns: Seq<Observation<I, E>>, at: int, value: I)
    requires
        0 <= at < turns.len(),
        turns[at].polled == Polled::<Result<I, E>>::Ready(Ok(value)),
        forall|j: int| 0 <= j < at ==> (#[trigger] turns[j]).polled is Pending,
    ensures
        wait_outcome(Timeout(None), turns) == Some(Ok::<I, Waited<E>>(value)),
{
    lemma_outcome_at(Timeout(None), turns, at);
}

/// A wait without a bound never ends as timed out.
pub proof fn law_unbounded_wait_never_times_out<I, E>(turns: Seq<Observation<I, E>>)
    ensures
        wait_outcome(Timeout(None), turns) != Some(Err::<I, Waited<E>>(Waited::TimedOut)),
    decreases turns.len(),
{
    if turns.len() > 0 {
        law_unbounded_wait_never_times_out(turns.skip(1));
    }
}

} // verus!
