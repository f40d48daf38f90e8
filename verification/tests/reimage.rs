use booking::dispatch::{Action, DispatchOutcome};
use booking::error::ErrorKind;
use booking::model::{Instance, StoreError};
use booking::reimage::{ReimageCommand, ReimageEvent, ReimageFlow, ReimagePhase};

const INSTANCE: u128 = 31;
const IMAGE: u128 = 8;
const HOST: u128 = 400;
const BOOKING: u128 = 77;

fn row(linked_host: Option<u128>) -> Instance {
    Instance { id: INSTANCE, aggregate: BOOKING, hostname: "alias".to_string(), image: 5, linked_host }
}

fn run(events: Vec<ReimageEvent>) -> Vec<ReimageCommand> {
    let (mut flow, first) = ReimageFlow::start(INSTANCE, IMAGE);
    let mut commands = vec![first];
    for event in events {
        let (next, command) = flow.step(event);
        flow = next;
        commands.push(command);
    }
    commands
}

fn committed() -> Vec<ReimageEvent> {
    vec![
        ReimageEvent::Opened(Ok(())),
        ReimageEvent::InstanceRead(Ok(row(Some(HOST)))),
        ReimageEvent::ImageStored(Ok(())),
        ReimageEvent::Committed(Ok(())),
    ]
}

#[test]
fn reimage_stores_commits_then_dispatches() {
    let mut events = committed();
    events.push(ReimageEvent::Dispatched(DispatchOutcome::Accepted));
    assert_eq!(
        run(events),
        vec![
            ReimageCommand::OpenTransaction,
            ReimageCommand::ReadInstance(INSTANCE),
            ReimageCommand::StoreImage { instance: INSTANCE, image: IMAGE },
            ReimageCommand::Commit,
            ReimageCommand::Dispatch(Action::Reimage { host_id: HOST, inst_id: INSTANCE, agg_id: BOOKING }),
            ReimageCommand::Respond(Ok(())),
        ]
    );
}

#[test]
fn reimage_without_a_machine_changes_nothing() {
    let commands = run(vec![ReimageEvent::Opened(Ok(())), ReimageEvent::InstanceRead(Ok(row(None)))]);
    assert_eq!(commands.len(), 3);
    assert_eq!(commands[1], ReimageCommand::ReadInstance(INSTANCE));
    match &commands[2] {
        ReimageCommand::Abort(error) => {
            assert_eq!(error.kind, ErrorKind::PreconditionFailed);
            assert_eq!(error.message, "No linked host was found for instance.");
        }
        other => panic!("unexpected command {:?}", other),
    }
    assert!(!commands.iter().any(|c| matches!(
        c,
        ReimageCommand::StoreImage { .. } | ReimageCommand::Commit | ReimageCommand::Dispatch(_)
    )));
}

#[test]
fn reimage_of_a_missing_instance_is_not_found() {
    let commands = run(vec![
        ReimageEvent::Opened(Ok(())),
        ReimageEvent::InstanceRead(Err(StoreError::NotFound)),
    ]);
    match &commands[2] {
        ReimageCommand::Abort(error) => {
            assert_eq!(error.kind, ErrorKind::NotFound);
            assert_eq!(error.status_code(), 404);
            assert_eq!(error.message, "Error accessing image from database.");
        }
        other => panic!("unexpected command {:?}", other),
    }
}

#[test]
fn reimage_read_failure_is_a_persistence_error() {
    let commands = run(vec![
        ReimageEvent::Opened(Ok(())),
        ReimageEvent::InstanceRead(Err(StoreError::ConnectionLost)),
    ]);
    match &commands[2] {
        ReimageCommand::Abort(error) => assert_eq!(error.kind, ErrorKind::Persistence),
        other => panic!("unexpected command {:?}", other),
    }
}

#[test]
fn reimage_fails_when_the_store_cannot_be_opened() {
    let commands = run(vec![ReimageEvent::Opened(Err(StoreError::ConnectionLost))]);
    match &commands[1] {
        ReimageCommand::Abort(error) => {
            assert_eq!(error.kind, ErrorKind::Persistence);
            assert_eq!(error.message, "unable to open a transaction on the database");
        }
        other => panic!("unexpected command {:?}", other),
    }
}

#[test]
fn reimage_fails_when_the_image_cannot_be_stored() {
    let commands = run(vec![
        ReimageEvent::Opened(Ok(())),
        ReimageEvent::InstanceRead(Ok(row(Some(HOST)))),
        ReimageEvent::ImageStored(Err(StoreError::ConstraintViolation)),
    ]);
    match &commands[3] {
        ReimageCommand::Abort(error) => {
            assert_eq!(error.kind, ErrorKind::Persistence);
            assert_eq!(error.message, "Error updating instance image.");
        }
        other => panic!("unexpected command {:?}", other),
    }
}

#[test]
fn reimage_fails_when_the_commit_fails() {
    let commands = run(vec![
        ReimageEvent::Opened(Ok(())),
        ReimageEvent::InstanceRead(Ok(row(Some(HOST)))),
        ReimageEvent::ImageStored(Ok(())),
        ReimageEvent::Committed(Err(StoreError::ConnectionLost)),
    ]);
    match &commands[4] {
        ReimageCommand::Abort(error) => {
            assert_eq!(error.kind, ErrorKind::Persistence);
            assert_eq!(error.message, "Error committing instance changes.");
        }
        other => panic!("unexpected command {:?}", other),
    }
    assert!(!commands.iter().any(|c| matches!(c, ReimageCommand::Dispatch(_))));
}

#[test]
fn reimage_reports_a_missing_engine_after_the_commit() {
    let mut events = committed();
    events.push(ReimageEvent::Dispatched(DispatchOutcome::Unavailable));
    let commands = run(events);
    assert_eq!(commands[3], ReimageCommand::Commit);
    match &commands[5] {
        ReimageCommand::Respond(Err(error)) => {
            assert_eq!(error.kind, ErrorKind::DispatchUnavailable);
            assert_eq!(error.message, "Tascii was not found.");
        }
        other => panic!("unexpected command {:?}", other),
    }
}

#[test]
fn reimage_succeeds_though_the_engine_refuses() {
    let mut events = committed();
    events.push(ReimageEvent::Dispatched(DispatchOutcome::Rejected));
    let commands = run(events);
    assert_eq!(commands[5], ReimageCommand::Respond(Ok(())));
}

#[test]
fn reimage_halts_once_it_has_answered() {
    let mut events = committed();
    events.push(ReimageEvent::Dispatched(DispatchOutcome::Accepted));
    events.push(ReimageEvent::Committed(Ok(())));
    events.push(ReimageEvent::Opened(Ok(())));
    let commands = run(events);
    assert_eq!(commands[6], ReimageCommand::Halt);
    assert_eq!(commands[7], ReimageCommand::Halt);
}

#[test]
fn reimage_gives_up_on_an_answer_out_of_turn() {
    let commands = run(vec![ReimageEvent::Committed(Ok(()))]);
    match &commands[1] {
        ReimageCommand::Abort(error) => {
            assert_eq!(error.kind, ErrorKind::Persistence);
            assert_eq!(error.message, "the store answered out of turn");
        }
        other => panic!("unexpected command {:?}", other),
    }
    let mut events = committed();
    events.push(ReimageEvent::Opened(Ok(())));
    let commands = run(events);
    match &commands[5] {
        ReimageCommand::Respond(Err(error)) => assert_eq!(error.kind, ErrorKind::Persistence),
        other => panic!("unexpected command {:?}", other),
    }
}

#[test]
fn reimage_flow_walks_through_its_phases() {
    let (flow, _) = ReimageFlow::start(INSTANCE, IMAGE);
    assert_eq!(flow.state().phase, ReimagePhase::Opening);
    assert_eq!((flow.state().instance, flow.state().image), (INSTANCE, IMAGE));
    assert!(!flow.is_done());
    let (flow, _) = flow.step(ReimageEvent::Opened(Ok(())));
    assert_eq!(flow.state().phase, ReimagePhase::Reading);
    let (flow, _) = flow.step(ReimageEvent::InstanceRead(Ok(row(Some(HOST)))));
    assert_eq!(flow.state().phase, ReimagePhase::Storing);
    assert_eq!((flow.state().host, flow.state().aggregate), (HOST, BOOKING));
    let (flow, _) = flow.step(ReimageEvent::ImageStored(Ok(())));
    assert_eq!(flow.state().phase, ReimagePhase::Committing);
    let (flow, _) = flow.step(ReimageEvent::Committed(Ok(())));
    assert_eq!(flow.state().phase, ReimagePhase::Dispatching);
    let (flow, _) = flow.step(ReimageEvent::Dispatched(DispatchOutcome::Accepted));
    assert!(flow.is_done());
    assert_eq!((flow.state().instance, flow.state().image), (INSTANCE, IMAGE));
}
