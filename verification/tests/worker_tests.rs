use blocking_client::error::{Error, ErrorKind};
use blocking_client::worker::{worker_step, WorkerAction, WorkerEvent, WorkerPhase};

type Event = WorkerEvent<&'static str>;
type Action = WorkerAction<&'static str>;

fn run(events: Vec<Event>) -> (WorkerPhase, Vec<Action>) {
    let mut phase = WorkerPhase::AwaitingScheduler;
    let mut actions = Vec::new();
    for event in events {
        let (next, action) = worker_step(phase, event);
        phase = next;
        actions.push(action);
    }
    (phase, actions)
}

#[test]
fn worker_starts_up_and_serves() {
    let (phase, actions) = run(vec![
        WorkerEvent::SchedulerBuilt(Ok(())),
        WorkerEvent::EngineBuilt(Ok(())),
        WorkerEvent::ReportSent(true),
    ]);
    assert_eq!(phase, WorkerPhase::Serving);
    assert_eq!(actions, vec![WorkerAction::BuildEngine, WorkerAction::Report(Ok(())), WorkerAction::Receive]);
}

#[test]
fn failed_scheduler_is_reported_as_build_error() {
    let (phase, actions) = run(vec![
        WorkerEvent::SchedulerBuilt(Err("no threads".to_string())),
        WorkerEvent::ReportSent(true),
    ]);
    assert_eq!(phase, WorkerPhase::Exited);
    assert_eq!(
        actions,
        vec![
            WorkerAction::Report(Err(Error {
                kind: ErrorKind::Builder,
                url: None,
                detail: "no threads".to_string()
            })),
            WorkerAction::Exit,
        ]
    );
}

#[test]
fn invalid_root_certificate_fails_the_build_without_serving() {
    let refused = Error::builder("invalid root certificate".to_string());
    let mut phase = WorkerPhase::AwaitingScheduler;
    let mut seen = Vec::new();
    for event in vec![
        Event::SchedulerBuilt(Ok(())),
        Event::EngineBuilt(Err(refused.clone())),
        Event::ReportSent(true),
    ] {
        let (next, action) = worker_step(phase, event);
        phase = next;
        assert_ne!(phase, WorkerPhase::Serving);
        seen.push(action);
    }
    assert_eq!(phase, WorkerPhase::Exited);
    assert_eq!(seen, vec![WorkerAction::BuildEngine, WorkerAction::Report(Err(refused)), WorkerAction::Exit]);
}

#[test]
fn worker_exits_when_nobody_takes_its_report() {
    let (phase, actions) = run(vec![
        WorkerEvent::SchedulerBuilt(Ok(())),
        WorkerEvent::EngineBuilt(Ok(())),
        WorkerEvent::ReportSent(false),
    ]);
    assert_eq!(phase, WorkerPhase::Exited);
    assert_eq!(actions[2], WorkerAction::Exit);
}

#[test]
fn failing_worker_exits_whether_or_not_the_report_was_taken() {
    let (phase, actions) = run(vec![WorkerEvent::SchedulerBuilt(Err("x".to_string())), WorkerEvent::ReportSent(false)]);
    assert_eq!(phase, WorkerPhase::Exited);
    assert_eq!(actions[1], WorkerAction::Exit);
}

#[test]
fn worker_dispatches_in_order_of_arrival() {
    let (phase, actions) = run(vec![
        WorkerEvent::SchedulerBuilt(Ok(())),
        WorkerEvent::EngineBuilt(Ok(())),
        WorkerEvent::ReportSent(true),
        WorkerEvent::Received(Some("slow")),
        WorkerEvent::Received(Some("fast")),
        WorkerEvent::Received(Some("third")),
    ]);
    assert_eq!(phase, WorkerPhase::Serving);
    assert_eq!(actions.len(), 6);
    assert_eq!(actions[3], WorkerAction::Dispatch("slow"));
    assert_eq!(actions[4], WorkerAction::Dispatch("fast"));
    assert_eq!(actions[5], WorkerAction::Dispatch("third"));
}

#[test]
fn worker_exits_when_the_queue_is_closed() {
    let (phase, actions) = run(vec![
        WorkerEvent::SchedulerBuilt(Ok(())),
        WorkerEvent::EngineBuilt(Ok(())),
        WorkerEvent::ReportSent(true),
        WorkerEvent::Received(Some("one")),
        WorkerEvent::Received(None),
        WorkerEvent::Received(Some("late")),
    ]);
    assert_eq!(phase, WorkerPhase::Exited);
    assert_eq!(actions[3], WorkerAction::Dispatch("one"));
    assert_eq!(actions[4], WorkerAction::Exit);
    assert_eq!(actions[5], WorkerAction::Exit);
}

#[test]
fn unexpected_event_ends_the_worker() {
    assert_eq!(
        worker_step::<u8>(WorkerPhase::AwaitingScheduler, WorkerEvent::Received(Some(1u8))),
        (WorkerPhase::Exited, WorkerAction::Exit)
    );
    assert_eq!(
        worker_step::<u8>(WorkerPhase::AwaitingEngine, WorkerEvent::SchedulerBuilt(Ok(()))),
        (WorkerPhase::Exited, WorkerAction::Exit)
    );
    assert_eq!(
        worker_step::<u8>(WorkerPhase::Serving, WorkerEvent::ReportSent(true)),
        (WorkerPhase::Exited, WorkerAction::Exit)
    );
    assert_eq!(
        worker_step::<u8>(WorkerPhase::Announcing, WorkerEvent::EngineBuilt(Ok(()))),
        (WorkerPhase::Exited, WorkerAction::Exit)
    );
}
