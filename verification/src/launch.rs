//! The spawning thread's side of a worker's start-up.
//!
//! The thread that builds a client spawns the worker and waits, without any
//! bound, for the worker's report. A good report makes it the worker's first
//! holder. A bad one is the build error that it returns; the worker has
//! exited, or is about to, and nothing is left to shut down.

use vstd::prelude::*;
use crate::error::Error;
use crate::lifetime::{WorkerState, WorkerView};
use crate::timeout::Timeout;

verus! {

/// The bound on the wait for the worker's start-up report: none. Start-up
/// is not subject to the timeout that the client was configured with.
pub fn startup_wait() -> (timeout: Timeout)
    ensures
        timeout == Timeout(None),
{
    Timeout(None)
}

/// Concludes a start-up from the worker's report. After a good report the
/// worker runs, held once, with the queue's `sender` and the `thread`'s
/// handle. After a bad one the error is returned as it came, and the sender
/// and the handle are dropped here, so that the queue is closed and the
/// thread is on its own.
pub fn conclude_startup<S, H>(report: Result<(), Error>, sender: S, thread: H) -> (started: Result<
    WorkerState<S, H>,
    Error,
>)
    ensures
        report is Ok ==> started is Ok && started->Ok_0@ == (WorkerView {
            sender: Some(sender),
            thread: Some(thread),
            holders: 1,
        }),
        report matches Err(error) ==> started == Err::<WorkerState<S, H>, Error>(error),
{
    match report {
        Ok(_) => Ok(WorkerState::new(sender, thread)),
        Err(error) => Err(error),
    }
}

} // verus!
