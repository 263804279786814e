//! One request from the caller's side: it is submitted to a worker that
//! runs, the caller waits, and what the wait ended with becomes the
//! caller's result.

use vstd::prelude::*;
use crate::channel::{PendingRequest, submit};
use crate::error::{Error, ErrorKind, ErrorView, timed_out_view};
use crate::forward::{TaskAction, TaskEvent, TaskPhase, task_action, task_action_at, task_phase_after};
use crate::forward::law_abandoned_task_is_silent;
use crate::lifetime::WorkerState;
use crate::timeout::{Timeout, default_limit};
use crate::wait::{Observation, Polled, Waited, wait_outcome};
use crate::wait::{law_default_wait_returns_timely_reply, law_silent_wait_times_out, law_unbounded_wait_returns_reply};

verus! {

/// Whether a response is a holder of the worker that produced it.
#[derive(Debug)]
pub struct KeepCoreThreadAlive {
    holding: bool,
}

impl KeepCoreThreadAlive {
    /// The mark of a response that holds no worker.
    pub fn empty() -> (keep: KeepCoreThreadAlive)
        ensures
            !keep.holds(),
    {
        KeepCoreThreadAlive { holding: false }
    }

    /// Whether the response counts among the worker's holders.
    pub closed spec fn holds(&self) -> bool {
        self.holding
    }

    /// Whether the response counts among the worker's holders, so that its
    /// owner owes the worker a release.
    pub fn is_holding(&self) -> (holding: bool)
        ensures
            holding == self.holds(),
    {
        self.holding
    }
}

/// What a caller gets for a request that succeeded: the engine's response,
/// the bound that later reads of its body keep, and the mark of a holder.
#[derive(Debug)]
pub struct Response<R> {
    pub inner: R,
    pub timeout: Timeout,
    pub keep_alive: KeepCoreThreadAlive,
}

impl<R> Response<R> {
    /// Wraps the engine's response.
    pub fn new(inner: R, timeout: Timeout, keep_alive: KeepCoreThreadAlive) -> (response: Response<R>)
        ensures
            response == (Response { inner, timeout, keep_alive }),
    {
        Response { inner, timeout, keep_alive }
    }
}

/// Submits `request` to the worker behind `state`, and returns the reading
/// end of the slot in which the reply will arrive. A worker whose thread is
/// gone although it has holders gives the request back.
pub fn send_request<Q, R, H>(
    state: &WorkerState<tokio::sync::mpsc::UnboundedSender<PendingRequest<Q, R>>, H>,
    request: Q,
) -> (reader: Result<tokio::sync::oneshot::Receiver<Result<R, Error>>, Q>)
    requires
        state@.running(),
    ensures
        reader is Err ==> reader->Err_0 == request,
{
    match state.sender() {
        Some(queue) => submit(queue, request),
        None => Err(request),
    }
}

/// The failure that a caller is given when its wait ended with `waited`,
/// for a request to `url`; `None` when the wait ended with a response.
pub open spec fn failure_of<R>(waited: Result<Result<R, Error>, Waited<Error>>, url: Seq<char>) -> Option<ErrorView> {
    match waited {
        Ok(Ok(_)) => None,
        Ok(Err(error)) => Some(error@.with_url(url)),
        Err(Waited::TimedOut) => Some(timed_out_view().with_url(url)),
        Err(Waited::Inner(error)) => Some(error@.with_url(url)),
    }
}

/// Turns what a caller's wait ended with into the caller's result.
///
/// A response is wrapped with `timeout` and made a holder of the worker, so
/// that the worker outlives the client for as long as the response is in
/// use. A failure, the engine's, the request body's or the wait's own
/// running out, is returned with `url` attached, and no holder is added.
pub fn resolve<R, S, H>(
    state: &mut WorkerState<S, H>,
    waited: Result<Result<R, Error>, Waited<Error>>,
    url: String,
    timeout: Timeout,
) -> (result: Result<Response<R>, Error>)
    ensures
        result is Ok <==> waited matches Ok(Ok(_)),
        result matches Ok(response) ==> {
            &&& waited matches Ok(Ok(inner)) && response.inner == inner
            &&& response.timeout == timeout
            &&& response.keep_alive.holds() == (old(state)@.running() && old(state)@.holders < u64::MAX)
            &&& response.keep_alive.holds() ==> final(state)@ == old(state)@.acquire()
            &&& !response.keep_alive.holds() ==> final(state)@ == old(state)@
        },
        result matches Err(error) ==> {
            &&& Some(error@) == failure_of(waited, url@)
            &&& final(state)@ == old(state)@
        },
{
    match waited {
        Ok(Ok(inner)) => {
            let holding = state.acquire();
            Ok(Response::new(inner, timeout, KeepCoreThreadAlive { holding }))
        },
        Ok(Err(error)) => Err(error.with_url(url)),
        Err(Waited::TimedOut) => Err(Error::timed_out().with_url(url)),
        Err(Waited::Inner(error)) => Err(error.with_url(url)),
    }
}

/// A client with the default timeout, waiting for a request whose response
/// is ready at a turn before which thirty seconds had not passed, ends its
/// wait with that response and with no failure.
pub proof fn law_default_client_gets_timely_response<R>(
    timeout: Timeout,
    turns: Seq<Observation<Result<R, Error>, Error>>,
    at: int,
    response: R,
    url: Seq<char>,
)
    requires
        timeout@ == Some(default_limit()),
        0 <= at < turns.len(),
        turns[at].polled == Polled::<Result<Result<R, Error>, Error>>::Ready(Ok(Ok(response))),
        forall|j: int| 0 <= j < at ==> (#[trigger] turns[j]).polled is Pending && turns[j].elapsed@ < default_limit(),
    ensures
        wait_outcome(timeout, turns) == Some(Ok::<Result<R, Error>, Waited<Error>>(Ok(response))),
        failure_of(wait_outcome(timeout, turns)->Some_0, url) is None,
{
    law_default_wait_returns_timely_reply(timeout, turns, at, Ok::<R, Error>(response));
}

/// A client whose waits are bounded by `limit`, waiting for a request to
/// `url` that has nothing ready when the bound runs out, ends its wait with
/// a timeout error that carries `url`. The task that the worker runs for the
/// request is abandoned as soon as it finds the caller gone, and from then
/// on neither polls the engine nor writes to the slot.
pub proof fn law_slow_request_times_out_and_is_abandoned<R>(
    timeout: Timeout,
    limit: nat,
    turns: Seq<Observation<Result<R, Error>, Error>>,
    at: int,
    url: Seq<char>,
    later: Seq<TaskEvent<Result<R, Error>>>,
    then: int,
)
    requires
        timeout@ == Some(limit),
        0 <= at < turns.len(),
        forall|j: int| 0 <= j <= at ==> (#[trigger] turns[j]).polled is Pending,
        forall|j: int| 0 <= j < at ==> (#[trigger] turns[j]).elapsed@ < limit,
        turns[at].elapsed@ >= limit,
        0 <= then < later.len(),
    ensures
        wait_outcome(timeout, turns) == Some(Err::<Result<R, Error>, Waited<Error>>(Waited::TimedOut)),
        failure_of(wait_outcome(timeout, turns)->Some_0, url) matches Some(error) && error.kind == ErrorKind::Timeout
            && error.url == Some(url),
        task_phase_after(TaskPhase::Racing, TaskEvent::<Result<R, Error>>::Consumer(Polled::Ready(())))
            == TaskPhase::Abandoned,
        task_action(TaskPhase::Racing, TaskEvent::<Result<R, Error>>::Consumer(Polled::Ready(())))
            == TaskAction::<Result<R, Error>>::Abandon,
        task_action_at(TaskPhase::Abandoned, later, then) == TaskAction::<Result<R, Error>>::Nothing,
{
    law_silent_wait_times_out(timeout, turns, at, limit);
    law_abandoned_task_is_silent(later, then);
}

/// A client without a timeout, waiting for a request whose response is
/// ready at some turn, ends its wait with that response and with no
/// failure, however much time has passed.
pub proof fn law_unbounded_client_gets_late_response<R>(
    turns: Seq<Observation<Result<R, Error>, Error>>,
    at: int,
    response: R,
    url: Seq<char>,
)
    requires
        0 <= at < turns.len(),
        turns[at].polled == Polled::<Result<Result<R, Error>, Error>>::Ready(Ok(Ok(response))),
        forall|j: int| 0 <= j < at ==> (#[trigger] turns[j]).polled is Pending,
    ensures
        wait_outcome(Timeout(None), turns) == Some(Ok::<Result<R, Error>, Waited<Error>>(Ok(response))),
        failure_of(wait_outcome(Timeout(None), turns)->Some_0, url) is None,
{
    law_unbounded_wait_returns_reply(turns, at, Ok::<R, Error>(response));
}

} // verus!
