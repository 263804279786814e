use blocking_client::forward::{task_step, TaskAction, TaskEvent, TaskPhase};
use blocking_client::wait::Polled;

#[test]
fn ready_engine_delivers_its_value() {
    let next = task_step(TaskPhase::Racing, TaskEvent::Engine(Polled::Ready(41u32)));
    assert_eq!(next, (TaskPhase::Delivered, TaskAction::Deliver(41u32)));
}

#[test]
fn pending_engine_asks_for_the_consumer() {
    let next = task_step::<u32>(TaskPhase::Racing, TaskEvent::Engine(Polled::Pending));
    assert_eq!(next, (TaskPhase::Racing, TaskAction::AskConsumer));
}

#[test]
fn waiting_consumer_suspends_the_task() {
    let next = task_step::<u32>(TaskPhase::Racing, TaskEvent::Consumer(Polled::Pending));
    assert_eq!(next, (TaskPhase::Racing, TaskAction::Suspend));
}

#[test]
fn gone_consumer_abandons_the_task() {
    let next = task_step::<u32>(TaskPhase::Racing, TaskEvent::Consumer(Polled::Ready(())));
    assert_eq!(next, (TaskPhase::Abandoned, TaskAction::Abandon));
}

#[test]
fn abandoned_task_ignores_a_late_answer() {
    let mut phase = TaskPhase::Racing;
    let events = vec![
        TaskEvent::Engine(Polled::Pending),
        TaskEvent::Consumer(Polled::Pending),
        TaskEvent::Engine(Polled::Pending),
        TaskEvent::Consumer(Polled::Ready(())),
        TaskEvent::Engine(Polled::Ready(5u32)),
        TaskEvent::Consumer(Polled::Ready(())),
        TaskEvent::Engine(Polled::Pending),
    ];
    let mut actions = Vec::new();
    for event in events {
        let (next, action) = task_step(phase, event);
        phase = next;
        actions.push(action);
    }
    assert_eq!(phase, TaskPhase::Abandoned);
    assert_eq!(
        actions,
        vec![
            TaskAction::AskConsumer,
            TaskAction::Suspend,
            TaskAction::AskConsumer,
            TaskAction::Abandon,
            TaskAction::Nothing,
            TaskAction::Nothing,
            TaskAction::Nothing,
        ]
    );
}

#[test]
fn task_delivers_only_once() {
    let (phase, first) = task_step(TaskPhase::Racing, TaskEvent::Engine(Polled::Ready(1u32)));
    let (phase, second) = task_step(phase, TaskEvent::Engine(Polled::Ready(2u32)));
    let (phase, third) = task_step::<u32>(phase, TaskEvent::Consumer(Polled::Ready(())));
    assert_eq!(first, TaskAction::Deliver(1u32));
    assert_eq!(second, TaskAction::Nothing);
    assert_eq!(third, TaskAction::Nothing);
    assert_eq!(phase, TaskPhase::Delivered);
}
