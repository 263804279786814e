//! The life of the worker thread: it starts up in two stages, reports how
//! that went, and then serves the queue until the queue is closed.
//!
//! The worker's driver performs each [`WorkerAction`] and reports what came
//! of it as the next [`WorkerEvent`]. A worker that could not start reports
//! the failure and exits without serving; one that started serves every
//! pending request in the order of its arrival, without waiting for an
//! earlier one to finish.

use vstd::prelude::*;
use crate::error::{Error, ErrorKind};

verus! {

/// Where the worker stands.
#[derive(Clone, Copy, Debug, PartialEq, Eq, Structural)]
pub enum WorkerPhase {
    /// The scheduler is being constructed.
    AwaitingScheduler,
    /// The engine is being constructed on the scheduler.
    AwaitingEngine,
    /// Both stand; the spawning thread is being told so.
    Announcing,
    /// A stage failed; the spawning thread is being told so.
    Failing,
    /// The worker takes pending requests off the queue.
    Serving,
    /// The worker has left, or is leaving, its thread.
    Exited,
}

/// What the worker's driver observed. `P` is a pending request.
#[derive(Debug, PartialEq, Eq)]
pub enum WorkerEvent<P> {
    /// The scheduler was constructed, or not, with the reason.
    SchedulerBuilt(Result<(), String>),
    /// The engine was constructed, or not.
    EngineBuilt(Result<(), Error>),
    /// The start-up report was written: `true` if the spawning thread was
    /// still there to take it.
    ReportSent(bool),
    /// The queue gave the next pending request, or `None`: it is empty and
    /// no sender is left.
    Received(Option<P>),
}

/// What the worker's driver does next.
#[derive(Debug, PartialEq, Eq)]
pub enum WorkerAction<P> {
    /// Construct the engine.
    BuildEngine,
    /// Write this start-up report for the spawning thread.
    Report(Result<(), Error>),
    /// Wait for the next pending request.
    Receive,
    /// Start a task for this pending request, then wait for the next.
    Dispatch(P),
    /// Tear the scheduler down and leave the thread.
    Exit,
}

/// The phase that follows `phase` on `event`. An event that the phase does
/// not expect ends the worker.
pub open spec fn worker_phase_after<P>(phase: WorkerPhase, event: WorkerEvent<P>) -> WorkerPhase {
    match (phase, event) {
        (WorkerPhase::AwaitingScheduler, WorkerEvent::SchedulerBuilt(Ok(_))) => WorkerPhase::AwaitingEngine,
        (WorkerPhase::AwaitingScheduler, WorkerEvent::SchedulerBuilt(Err(_))) => WorkerPhase::Failing,
        (WorkerPhase::AwaitingEngine, WorkerEvent::EngineBuilt(Ok(_))) => WorkerPhase::Announcing,
        (WorkerPhase::AwaitingEngine, WorkerEvent::EngineBuilt(Err(_))) => WorkerPhase::Failing,
        (WorkerPhase::Announcing, WorkerEvent::ReportSent(true)) => WorkerPhase::Serving,
        (WorkerPhase::Serving, WorkerEvent::Received(Some(_))) => WorkerPhase::Serving,
        _ => WorkerPhase::Exited,
    }
}

/// What the driver of a worker in `phase` does on `event`.
pub open spec fn worker_action<P>(phase: WorkerPhase, event: WorkerEvent<P>) -> WorkerAction<P> {
    match (phase, event) {
        (WorkerPhase::AwaitingScheduler, WorkerEvent::SchedulerBuilt(Ok(_))) => WorkerAction::BuildEngine,
        (WorkerPhase::AwaitingScheduler, WorkerEvent::SchedulerBuilt(Err(detail))) => WorkerAction::Report(
            Err(Error { kind: ErrorKind::Builder, url: None, detail }),
        ),
        (WorkerPhase::AwaitingEngine, WorkerEvent::EngineBuilt(Ok(_))) => WorkerAction::Report(Ok(())),
        (WorkerPhase::AwaitingEngine, WorkerEvent::EngineBuilt(Err(error))) => WorkerAction::Report(Err(error)),
        (WorkerPhase::Announcing, WorkerEvent::ReportSent(true)) => WorkerAction::Receive,
        (WorkerPhase::Serving, WorkerEvent::Received(Some(pending))) => WorkerAction::Dispatch(pending),
        _ => WorkerAction::Exit,
    }
}

/// Advances the worker by one event.
pub fn worker_step<P>(phase: WorkerPhase, event: WorkerEvent<P>) -> (next: (WorkerPhase, WorkerAction<P>))
    ensures
        next.0 == worker_phase_after(phase, event),
        next.1 == worker_action(phase, event),
{
    match phase {
        WorkerPhase::AwaitingScheduler => match event {
            WorkerEvent::SchedulerBuilt(Ok(_)) => (WorkerPhase::AwaitingEngine, WorkerAction::BuildEngine),
            WorkerEvent::SchedulerBuilt(Err(detail)) => (
                WorkerPhase::Failing,
                WorkerAction::Report(Err(Error::builder(detail))),
            ),
            _ => (WorkerPhase::Exited, WorkerAction::Exit),
        },
        WorkerPhase::AwaitingEngine => match event {
            WorkerEvent::EngineBuilt(Ok(_)) => (WorkerPhase::Announcing, WorkerAction::Report(Ok(()))),
            WorkerEvent::EngineBuilt(Err(error)) => (WorkerPhase::Failing, WorkerAction::Report(Err(error))),
            _ => (WorkerPhase::Exited, WorkerAction::Exit),
        },
        WorkerPhase::Announcing => match event {
            WorkerEvent::ReportSent(true) => (WorkerPhase::Serving, WorkerAction::Receive),
            _ => (WorkerPhase::Exited, WorkerAction::Exit),
        },
        WorkerPhase::Serving => match event {
            WorkerEvent::Received(Some(pending)) => (WorkerPhase::Serving, WorkerAction::Dispatch(pending)),
            _ => (WorkerPhase::Exited, WorkerAction::Exit),
        },
        WorkerPhase::Failing => (WorkerPhase::Exited, WorkerAction::Exit),
        WorkerPhase::Exited => (WorkerPhase::Exited, WorkerAction::Exit),
    }
}

/// The phase of a worker that started in `phase` and saw `events` in order.
pub open spec fn worker_phase_at<P>(phase: WorkerPhase, events: Seq<WorkerEvent<P>>) -> WorkerPhase
    decreases events.len(),
{
    if events.len() == 0 {
        phase
    } else {
        worker_phase_after(worker_phase_at(phase, events.drop_last()), events.last())
    }
}

/// What the driver did on the event at index `at` of `events`.
pub open spec fn worker_action_at<P>(phase: WorkerPhase, events: Seq<WorkerEvent<P>>, at: int) -> WorkerAction<P>
    recommends
        0 <= at < events.len(),
{
    worker_action(worker_phase_at(phase, events.take(at)), events[at])
}

/// Whether `events` begin with a start-up in which both stages succeeded
/// and the spawning thread took the report.
pub open spec fn started_up<P>(events: Seq<WorkerEvent<P>>) -> bool {
    &&& events.len() >= 3
    &&& events[0] matches WorkerEvent::SchedulerBuilt(Ok(_))
    &&& events[1] matches WorkerEvent::EngineBuilt(Ok(_))
    &&& events[2] == WorkerEvent::<P>::ReportSent(true)
}

/// No event leads back to the phase in which a worker begins.
proof fn lemma_awaiting_scheduler_is_initial<P>(events: Seq<WorkerEvent<P>>)
    requires
        worker_phase_at(WorkerPhase::AwaitingScheduler, events) == WorkerPhase::AwaitingScheduler,
    ensures
        events.len() == 0,
{
}

/// A worker awaits its engine only right after its scheduler was built.
proof fn lemma_awaiting_engine_follows_scheduler<P>(events: Seq<WorkerEvent<P>>)
    requires
        worker_phase_at(WorkerPhase::AwaitingScheduler, events) == WorkerPhase::AwaitingEngine,
    ensures
        events.len() == 1,
        events[0] matches WorkerEvent::SchedulerBuilt(Ok(_)),
{
    lemma_awaiting_scheduler_is_initial(events.drop_last());
}

/// A worker announces success only right after both stages succeeded.
proof fn lemma_announcing_follows_engine<P>(events: Seq<WorkerEvent<P>>)
    requires
        worker_phase_at(WorkerPhase::AwaitingScheduler, events) == WorkerPhase::Announcing,
    ensures
        events.len() == 2,
        events[0] matches WorkerEvent::SchedulerBuilt(Ok(_)),
        events[1] matches WorkerEvent::EngineBuilt(Ok(_)),
{
    lemma_awaiting_engine_follows_scheduler(events.drop_last());
    assert(events.drop_last()[0] == events[0]);
}

/// A worker serves only after the scheduler and the engine were both
/// constructed and the spawning thread took the report of it; every event
/// since then was a pending request taken off the queue.
pub proof fn law_worker_serves_only_after_startup<P>(events: Seq<WorkerEvent<P>>)
    requires
        worker_phase_at(WorkerPhase::AwaitingScheduler, events) == WorkerPhase::Serving,
    ensures
        started_up(events),
        forall|i: int| 3 <= i < events.len() ==> (#[trigger] events[i]) is Received && events[i]->Received_0 is Some,
    decreases events.len(),
{
    let before = events.drop_last();
    let phase = worker_phase_at(WorkerPhase::AwaitingScheduler, before);
    if phase == WorkerPhase::Announcing {
        lemma_announcing_follows_engine(before);
        assert(before[0] == events[0]);
        assert(before[1] == events[1]);
    } else {
        assert(phase == WorkerPhase::Serving);
        law_worker_serves_only_after_startup(before);
        assert(before[0] == events[0]);
        assert(before[1] == events[1]);
        assert(before[2] == events[2]);
        assert forall|i: int| 3 <= i < events.len() implies (#[trigger] events[i]) is Received
            && events[i]->Received_0 is Some by {
            if i < before.len() {
                assert(before[i] == events[i]);
            }
        }
    }
}

/// A worker that has exited stays exited, and its driver is told to exit
/// whatever else is reported.
pub proof fn law_exited_worker_stays_exited<P>(events: Seq<WorkerEvent<P>>)
    ensures
        worker_phase_at(WorkerPhase::Exited, events) == WorkerPhase::Exited,
        forall|at: int| 0 <= at < events.len() ==> #[trigger] worker_action_at(WorkerPhase::Exited, events, at)
            == WorkerAction::<P>::Exit,
    decreases events.len(),
{
    if events.len() > 0 {
        law_exited_worker_stays_exited(events.drop_last());
        assert forall|at: int| 0 <= at < events.len() implies #[trigger] worker_action_at(
            WorkerPhase::Exited,
            events,
            at,
        ) == WorkerAction::<P>::Exit by {
            law_exited_worker_stays_exited(events.take(at));
        }
    }
}

/// A worker whose scheduler could not be constructed reports a build error
/// with the reason, exits once the report is written, and never serves.
pub proof fn law_failed_scheduler_is_reported<P>(detail: String, taken: bool)
    ensures
        worker_action_at(
            WorkerPhase::AwaitingScheduler,
            seq![WorkerEvent::<P>::SchedulerBuilt(Err(detail)), WorkerEvent::ReportSent(taken)],
            0,
        ) == WorkerAction::<P>::Report(Err(Error { kind: ErrorKind::Builder, url: None, detail })),
        worker_action_at(
            WorkerPhase::AwaitingScheduler,
            seq![WorkerEvent::<P>::SchedulerBuilt(Err(detail)), WorkerEvent::ReportSent(taken)],
            1,
        ) == WorkerAction::<P>::Exit,
        worker_phase_at(
            WorkerPhase::AwaitingScheduler,
            seq![WorkerEvent::<P>::SchedulerBuilt(Err(detail)), WorkerEvent::ReportSent(taken)],
        ) == WorkerPhase::Exited,
{
    let events = seq![WorkerEvent::<P>::SchedulerBuilt(Err(detail)), WorkerEvent::ReportSent(taken)];
    lemma_two_events(WorkerPhase::AwaitingScheduler, events);
}

/// A worker whose engine could not be constructed reports the engine's own
/// error, exits once the report is written, and never serves.
pub proof fn law_failed_engine_is_reported<P>(error: Error, taken: bool)
    ensures
        worker_action_at(
            WorkerPhase::AwaitingScheduler,
            seq![
                WorkerEvent::<P>::SchedulerBuilt(Ok(())),
                WorkerEvent::EngineBuilt(Err(error)),
                WorkerEvent::ReportSent(taken),
            ],
            1,
        ) == WorkerAction::<P>::Report(Err(error)),
        worker_action_at(
            WorkerPhase::AwaitingScheduler,
            seq![
                WorkerEvent::<P>::SchedulerBuilt(Ok(())),
                WorkerEvent::EngineBuilt(Err(error)),
                WorkerEvent::ReportSent(taken),
            ],
            2,
        ) == WorkerAction::<P>::Exit,
        worker_phase_at(
            WorkerPhase::AwaitingScheduler,
            seq![
                WorkerEvent::<P>::SchedulerBuilt(Ok(())),
                WorkerEvent::EngineBuilt(Err(error)),
                WorkerEvent::ReportSent(taken),
            ],
        ) == WorkerPhase::Exited,
{
    let events = seq![
        WorkerEvent::<P>::SchedulerBuilt(Ok(())),
        WorkerEvent::EngineBuilt(Err(error)),
        WorkerEvent::ReportSent(taken),
    ];
    let two = events.take(2);
    lemma_two_events(WorkerPhase::AwaitingScheduler, two);
    assert(events.drop_last() == two);
    assert(events.take(1) == two.take(1));
}

/// Unfolds the run of a worker over exactly two events.
proof fn lemma_two_events<P>(phase: WorkerPhase, events: Seq<WorkerEvent<P>>)
    requires
        events.len() == 2,
    ensures
        worker_phase_at(phase, events.take(0)) == phase,
        worker_phase_at(phase, events.take(1)) == worker_phase_after(phase, events[0]),
        worker_phase_at(phase, events) == worker_phase_after(worker_phase_after(phase, events[0]), events[1]),
{
    let one = events.take(1);
    assert(one.drop_last() == events.take(0));
    assert(events.take(0).len() == 0);
    assert(one.last() == events[0]);
    assert(events.drop_last() == one);
}

/// A serving worker starts a task for each pending request in the order of
/// its arrival, and hands each task exactly what arrived: the request
/// together with the slot that came with it.
pub proof fn law_dispatch_follows_arrival<P>(events: Seq<WorkerEvent<P>>, at: int, pending: P)
    requires
        0 <= at < events.len(),
        forall|i: int| 0 <= i < at ==> (#[trigger] events[i]) is Received && events[i]->Received_0 is Some,
        events[at] == WorkerEvent::Received(Some(pending)),
    ensures
        worker_action_at(WorkerPhase::Serving, events, at) == WorkerAction::Dispatch(pending),
{
    lemma_serving_through_arrivals(events.take(at));
}

/// A serving worker goes on serving while pending requests arrive.
proof fn lemma_serving_through_arrivals<P>(events: Seq<WorkerEvent<P>>)
    requires
        forall|i: int| 0 <= i < events.len() ==> (#[trigger] events[i]) is Received && events[i]->Received_0 is Some,
    ensures
        worker_phase_at(WorkerPhase::Serving, events) == WorkerPhase::Serving,
    decreases events.len(),
{
    if events.len() > 0 {
        let before = events.drop_last();
        assert forall|i: int| 0 <= i < before.len() implies (#[trigger] before[i]) is Received
            && before[i]->Received_0 is Some by {
            assert(before[i] == events[i]);
        }
        lemma_serving_through_arrivals(before);
        assert(events.last() == events[events.len() - 1]);
    }
}

/// A serving worker that finds the queue empty with no sender left exits,
/// and starts no task afterwards.
pub proof fn law_closed_queue_ends_worker<P>(later: Seq<WorkerEvent<P>>, at: int)
    requires
        0 <= at < later.len(),
    ensures
        worker_phase_after(WorkerPhase::Serving, WorkerEvent::<P>::Received(None)) == WorkerPhase::Exited,
        worker_action(WorkerPhase::Serving, WorkerEvent::<P>::Received(None)) == WorkerAction::<P>::Exit,
        worker_action_at(WorkerPhase::Exited, later, at) == WorkerAction::<P>::Exit,
{
    law_exited_worker_stays_exited(later);
}

} // verus!
