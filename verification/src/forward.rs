//! The task that the worker runs for one request: a race between the
//! engine's answer and the caller's giving up.
//!
//! Each time the task is woken it polls the engine. Only while the engine has
//! nothing yet does it ask whether the caller still holds the reading end of
//! the slot. A task whose caller is gone is abandoned: it writes nothing and
//! is never polled again.

use vstd::prelude::*;
use crate::wait::Polled;

verus! {

/// Where a task stands.
#[derive(Clone, Copy, Debug, PartialEq, Eq, Structural)]
pub enum TaskPhase {
    /// Neither the engine nor the caller has settled the race.
    Racing,
    /// The engine answered and the answer went to the slot.
    Delivered,
    /// The caller gave up first.
    Abandoned,
}

/// What the task's driver observed.
#[derive(Debug, PartialEq, Eq)]
pub enum TaskEvent<T> {
    /// The engine's computation was polled.
    Engine(Polled<T>),
    /// The slot was asked whether its reading end is gone: ready means gone.
    Consumer(Polled<()>),
}

/// What the task's driver does next.
#[derive(Debug, PartialEq, Eq)]
pub enum TaskAction<T> {
    /// Write the value to the slot and end the task.
    Deliver(T),
    /// Ask the slot whether its reading end is gone.
    AskConsumer,
    /// Yield until woken.
    Suspend,
    /// End the task without writing and release what the engine held for it.
    Abandon,
    /// The task has ended: there is nothing left to do.
    Nothing,
}

/// The phase that follows `phase` on `event`.
pub open spec fn task_phase_after<T>(phase: TaskPhase, event: TaskEvent<T>) -> TaskPhase {
    match (phase, event) {
        (TaskPhase::Racing, TaskEvent::Engine(Polled::Ready(_))) => TaskPhase::Delivered,
        (TaskPhase::Racing, TaskEvent::Consumer(Polled::Ready(_))) => TaskPhase::Abandoned,
        _ => phase,
    }
}

/// What the driver of a task in `phase` does on `event`.
pub open spec fn task_action<T>(phase: TaskPhase, event: TaskEvent<T>) -> TaskAction<T> {
    match (phase, event) {
        (TaskPhase::Racing, TaskEvent::Engine(Polled::Ready(value))) => TaskAction::Deliver(value),
        (TaskPhase::Racing, TaskEvent::Engine(Polled::Pending)) => TaskAction::AskConsumer,
        (TaskPhase::Racing, TaskEvent::Consumer(Polled::Ready(_))) => TaskAction::Abandon,
        (TaskPhase::Racing, TaskEvent::Consumer(Polled::Pending)) => TaskAction::Suspend,
        _ => TaskAction::Nothing,
    }
}

/// Advances a task by one event.
pub fn task_step<T>(phase: TaskPhase, event: TaskEvent<T>) -> (next: (TaskPhase, TaskAction<T>))
    ensures
        next.0 == task_phase_after(phase, event),
        next.1 == task_action(phase, event),
{
    match phase {
        TaskPhase::Racing => match event {
            TaskEvent::Engine(Polled::Ready(value)) => (TaskPhase::Delivered, TaskAction::Deliver(value)),
            TaskEvent::Engine(Polled::Pending) => (TaskPhase::Racing, TaskAction::AskConsumer),
            TaskEvent::Consumer(Polled::Ready(_)) => (TaskPhase::Abandoned, TaskAction::Abandon),
            TaskEvent::Consumer(Polled::Pending) => (TaskPhase::Racing, TaskAction::Suspend),
        },
        TaskPhase::Delivered => (TaskPhase::Delivered, TaskAction::Nothing),
        TaskPhase::Abandoned => (TaskPhase::Abandoned, TaskAction::Nothing),
    }
}

/// The phase of a task that started in `phase` and saw `events` in order.
pub open spec fn task_phase_at<T>(phase: TaskPhase, events: Seq<TaskEvent<T>>) -> TaskPhase
    decreases events.len(),
{
    if events.len() == 0 {
        phase
    } else {
        task_phase_after(task_phase_at(phase, events.drop_last()), events.last())
    }
}

/// What the driver did on the event at index `at` of `events`.
pub open spec fn task_action_at<T>(phase: TaskPhase, events: Seq<TaskEvent<T>>, at: int) -> TaskAction<T>
    recommends
        0 <= at < events.len(),
{
    task_action(task_phase_at(phase, events.take(at)), events[at])
}

/// A task that has ended stays as it is.
pub proof fn law_ended_task_keeps_phase<T>(phase: TaskPhase, events: Seq<TaskEvent<T>>)
    requires
        phase != TaskPhase::Racing,
    ensures
        task_phase_at(phase, events) == phase,
    decreases events.len(),
{
    if events.len() > 0 {
        law_ended_task_keeps_phase(phase, events.drop_last());
    }
}

/// Once a task is abandoned, nothing that happens later makes it write to
/// the slot or poll again: every later action is `Nothing`.
pub proof fn law_abandoned_task_is_silent<T>(events: Seq<TaskEvent<T>>, at: int)
    requires
        0 <= at < events.len(),
    ensures
        task_action_at(TaskPhase::Abandoned, events, at) == TaskAction::<T>::Nothing,
        task_phase_at(TaskPhase::Abandoned, events) == TaskPhase::Abandoned,
{
    law_ended_task_keeps_phase(TaskPhase::Abandoned, events.take(at));
    law_ended_task_keeps_phase(TaskPhase::Abandoned, events);
}

/// The phase of a task never goes back to racing.
proof fn lemma_phase_is_final<T>(phase: TaskPhase, events: Seq<TaskEvent<T>>, cut: int)
    requires
        0 <= cut <= events.len(),
        task_phase_at(phase, events.take(cut)) != TaskPhase::Racing,
    ensures
        task_phase_at(phase, events) == task_phase_at(phase, events.take(cut)),
    decreases events.len() - cut,
{
    if cut < events.len() {
        let longer = events.take(cut + 1);
        assert(longer.drop_last() == events.take(cut));
        assert(longer.last() == events[cut]);
        lemma_phase_is_final(phase, events, cut + 1);
    } else {
        assert(events.take(cut) == events);
    }
}

/// A task writes to its slot at most once: of two events on which it
/// delivers, neither comes before the other.
pub proof fn law_task_delivers_at_most_once<T>(events: Seq<TaskEvent<T>>, first: int, second: int)
    requires
        0 <= first < events.len(),
        0 <= second < events.len(),
        task_action_at(TaskPhase::Racing, events, first) is Deliver,
        task_action_at(TaskPhase::Racing, events, second) is Deliver,
    ensures
        first == second,
{
    if first < second {
        assert(events.take(second).take(first) == events.take(first));
        assert(events.take(second)[first] == events[first]);
        lemma_delivery_ends_race(events.take(second), first);
    } else if second < first {
        assert(events.take(first).take(second) == events.take(second));
        assert(events.take(first)[second] == events[second]);
        lemma_delivery_ends_race(events.take(first), second);
    }
}

/// A task that delivered on one of its events stands as delivered after all
/// of them.
proof fn lemma_delivery_ends_race<T>(events: Seq<TaskEvent<T>>, at: int)
    requires
        0 <= at < events.len(),
        task_action(task_phase_at(TaskPhase::Racing, events.take(at)), events[at]) is Deliver,
    ensures
        task_phase_at(TaskPhase::Racing, events) == TaskPhase::Delivered,
{
    let through = events.take(at + 1);
    assert(through.drop_last() == events.take(at));
    assert(through.last() == events[at]);
    assert(task_phase_at(TaskPhase::Racing, through) == TaskPhase::Delivered);
    lemma_phase_is_final(TaskPhase::Racing, events, at + 1);
}

/// What a task delivers is the value that the engine was ready with.
pub proof fn law_task_delivers_engine_value<T>(events: Seq<TaskEvent<T>>, at: int, value: T)
    requires
        0 <= at < events.len(),
        task_action_at(TaskPhase::Racing, events, at) == TaskAction::Deliver(value),
    ensures
        events[at] == TaskEvent::Engine(Polled::Ready(value)),
{
}

/// A task whose caller is found gone while the engine has nothing yet is
/// abandoned on the spot, whatever the engine would have answered later.
pub proof fn law_gone_caller_abandons_task<T>(later: Seq<TaskEvent<T>>, at: int)
    requires
        0 <= at < later.len(),
    ensures
        task_phase_after(TaskPhase::Racing, TaskEvent::<T>::Consumer(Polled::Ready(()))) == TaskPhase::Abandoned,
        task_action(TaskPhase::Racing, TaskEvent::<T>::Consumer(Polled::Ready(()))) == TaskAction::<T>::Abandon,
        task_action_at(TaskPhase::Abandoned, later, at) == TaskAction::<T>::Nothing,
{
    law_abandoned_task_is_silent(later, at);
}

} // verus!
