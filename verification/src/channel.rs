//! The two channels of the bridge: the queue that carries pending requests
//! to the worker, and the single-use slot that carries one reply back.
//!
//! Both are tokio's. Whether a write to either succeeds depends on the thread
//! at the other end, so the functions here promise only what holds either
//! way: what could not be written comes back unchanged.

use vstd::prelude::*;
use crate::error::Error;

verus! {

/// tokio's `oneshot::Sender`, the writing end of a slot: carried, never
/// looked into.
#[verifier::external_type_specification]
#[verifier::external_body]
#[verifier::reject_recursive_types(T)]
pub struct ExSlotSender<T>(tokio::sync::oneshot::Sender<T>);

/// tokio's `oneshot::error::RecvError`, which a reading end yields when the
/// writing end is gone without having written.
#[verifier::external_type_specification]
#[verifier::external_body]
pub struct ExSlotClosed(tokio::sync::oneshot::error::RecvError);

/// tokio's `oneshot::Receiver`, the reading end of a slot: carried, never
/// looked into.
#[verifier::external_type_specification]
#[verifier::external_body]
#[verifier::reject_recursive_types(T)]
pub struct ExSlotReceiver<T>(tokio::sync::oneshot::Receiver<T>);

/// tokio's `mpsc::UnboundedSender`, the sending half of the queue: carried,
/// never looked into.
#[verifier::external_type_specification]
#[verifier::external_body]
#[verifier::reject_recursive_types(T)]
pub struct ExQueueSender<T>(tokio::sync::mpsc::UnboundedSender<T>);

/// Calls `tokio::sync::oneshot::channel`, which makes the writing and the
/// reading end of a fresh single-use slot. Nothing is claimed of the ends.
#[verifier::external_body]
fn open_slot<T>() -> (ends: (tokio::sync::oneshot::Sender<T>, tokio::sync::oneshot::Receiver<T>)) {
    tokio::sync::oneshot::channel()
}

/// Calls `tokio::sync::oneshot::Sender::send`, which hands `value` to the
/// reading end or, where that end is gone, gives the value back. Which of
/// the two happens is the reader's doing; the contract claims only that a
/// value given back is the one that was passed in.
#[verifier::external_body]
fn fill_slot<T>(slot: tokio::sync::oneshot::Sender<T>, value: T) -> (sent: Result<(), T>)
    ensures
        sent is Err ==> sent->Err_0 == value,
{
    slot.send(value)
}

/// Calls `tokio::sync::mpsc::UnboundedSender::send`, which appends `item` to
/// the queue without waiting or, where the receiving half is closed or gone,
/// gives the item back inside its error. The contract claims only that an
/// item given back is the one that was passed in. (tokio ends the process
/// rather than return when half of `usize::MAX` items are queued at once,
/// which no memory holds.)
#[verifier::external_body]
fn enqueue<T>(queue: &tokio::sync::mpsc::UnboundedSender<T>, item: T) -> (sent: Result<(), T>)
    ensures
        sent is Err ==> sent->Err_0 == item,
{
    match queue.send(item) {
        Ok(()) => Ok(()),
        Err(refused) => Err(refused.0),
    }
}

/// A request that was submitted and not yet dispatched, together with the
/// writing end of the slot in which its caller waits for the reply.
#[verifier::reject_recursive_types(R)]
pub struct PendingRequest<Q, R> {
    pub request: Q,
    pub slot: tokio::sync::oneshot::Sender<Result<R, Error>>,
}

/// What a write to a slot came to: nothing is left when the reading end took
/// the value, and the value is left over when the reader was gone.
pub fn undelivered<T>(sent: Result<(), T>) -> (left: Option<T>)
    ensures
        sent is Ok ==> left is None,
        sent matches Err(value) ==> left == Some(value),
{
    match sent {
        Ok(_) => None,
        Err(value) => Some(value),
    }
}

/// Writes `value` to a slot. Returns `None` when the reading end took it,
/// and gives the value back when the reader was gone: a reply to a caller
/// that gave up is dropped by whoever gets it back.
pub fn deliver<T>(slot: tokio::sync::oneshot::Sender<T>, value: T) -> (left: Option<T>)
    ensures
        left is Some ==> left == Some(value),
{
    undelivered(fill_slot(slot, value))
}

/// What a submission came to: the caller keeps the reading end when the
/// queue took the pending request, and gets its request back when the
/// queue's worker was gone.
pub fn submitted<Q, R>(
    sent: Result<(), PendingRequest<Q, R>>,
    reader: tokio::sync::oneshot::Receiver<Result<R, Error>>,
) -> (kept: Result<tokio::sync::oneshot::Receiver<Result<R, Error>>, Q>)
    ensures
        sent is Ok ==> kept == Ok::<tokio::sync::oneshot::Receiver<Result<R, Error>>, Q>(reader),
        sent matches Err(back) ==> kept == Err::<tokio::sync::oneshot::Receiver<Result<R, Error>>, Q>(
            back.request,
        ),
{
    match sent {
        Ok(_) => Ok(reader),
        Err(back) => Err(back.request),
    }
}

/// Submits `request`: opens a fresh slot, puts the request and the slot's
/// writing end on the queue, and returns the reading end. The call does not
/// wait. A queue whose worker is gone gives the request back.
pub fn submit<Q, R>(queue: &tokio::sync::mpsc::UnboundedSender<PendingRequest<Q, R>>, request: Q) -> (kept: Result<
    tokio::sync::oneshot::Receiver<Result<R, Error>>,
    Q,
>)
    ensures
        kept is Err ==> kept->Err_0 == request,
{
    let (slot, reader) = open_slot::<Result<R, Error>>();
    submitted(enqueue(queue, PendingRequest { request, slot }), reader)
}

} // verus!
