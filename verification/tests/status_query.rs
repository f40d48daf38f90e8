use booking::clock::Timestamp;
use booking::error::ErrorKind;
use booking::model::{Aggregate, Host, Instance, LogEvent, Sentiment, StoreError};
use booking::status::BookingStatus;
use booking::status_query::{StatusCommand, StatusEvent, StatusQuery};

type Event = StatusEvent<String, String>;
type Command = StatusCommand<String, String>;

const BOOKING: u128 = 77;
const TEMPLATE: u128 = 900;

fn log(secs: i64, headline: &str) -> LogEvent {
    LogEvent {
        time: Timestamp::new(secs, 0).unwrap(),
        sentiment: Sentiment::Neutral,
        headline: headline.to_string(),
        detail: "detail".to_string(),
    }
}

fn slot(id: u128, alias: &str, linked_host: Option<u128>) -> Instance {
    Instance { id, aggregate: BOOKING, hostname: alias.to_string(), image: 5, linked_host }
}

fn booking_row() -> Event {
    StatusEvent::AggregateLoaded(Ok(Aggregate {
        id: BOOKING,
        configuration: "settings".to_string(),
        template: TEMPLATE,
    }))
}

fn drive(events: Vec<Event>) -> Vec<Command> {
    let (mut query, first) = StatusQuery::start(BOOKING);
    let mut commands = vec![first];
    for event in events {
        let (next, command) = query.step(event);
        query = next;
        commands.push(command);
    }
    commands
}

fn answer(commands: &[Command]) -> &BookingStatus<String, String> {
    match commands.last().unwrap() {
        StatusCommand::Respond(status) => status,
        other => panic!("unexpected command {:?}", other),
    }
}

fn failure_kind(command: &Command) -> (ErrorKind, &str) {
    match command {
        StatusCommand::Abort(error) => (error.kind, error.message.as_str()),
        other => panic!("unexpected command {:?}", other),
    }
}

#[test]
fn status_of_two_instances() {
    let commands = drive(vec![
        StatusEvent::Opened(Ok(())),
        booking_row(),
        StatusEvent::InstancesListed(Ok(vec![slot(1, "one", Some(400)), slot(2, "two", None)])),
        StatusEvent::LogsLoaded(Ok(vec![log(3, "c"), log(1, "a"), log(2, "b")])),
        StatusEvent::HostLoaded(Ok(Host {
            server_name: "hpe-12".to_string(),
            ipmi_fqdn: "hpe-12-ipmi.lab".to_string(),
        })),
        StatusEvent::LogsLoaded(Ok(vec![])),
        StatusEvent::TemplateLoaded(Ok("template".to_string())),
        StatusEvent::Committed(Ok(())),
    ]);
    assert_eq!(commands[0], StatusCommand::OpenTransaction);
    assert_eq!(commands[1], StatusCommand::LoadAggregate(BOOKING));
    assert_eq!(commands[2], StatusCommand::ListInstances(BOOKING));
    assert_eq!(commands[3], StatusCommand::LoadLogs(1));
    assert_eq!(commands[4], StatusCommand::LoadHost(400));
    assert_eq!(commands[5], StatusCommand::LoadLogs(2));
    assert_eq!(commands[6], StatusCommand::LoadTemplate(TEMPLATE));
    assert_eq!(commands[7], StatusCommand::Commit);
    let status = answer(&commands);
    assert_eq!(status.config, "settings");
    assert_eq!(status.template, "template");
    assert_eq!(status.instances.len(), 2);
    let one = &status.instances[&1];
    assert_eq!(one.instance, 1);
    assert_eq!(one.host_alias, "one");
    assert_eq!(one.assigned_host.as_deref(), Some("hpe-12"));
    let info = one.assigned_host_info.as_ref().unwrap();
    assert_eq!((info.hostname.as_str(), info.ipmi_fqdn.as_str()), ("hpe-12", "hpe-12-ipmi.lab"));
    let headlines: Vec<&str> = one.logs.iter().map(|u| u.status_info.headline.as_str()).collect();
    assert_eq!(headlines, vec!["a", "b", "c"]);
    let two = &status.instances[&2];
    assert_eq!(two.instance, 2);
    assert_eq!(two.host_alias, "two");
    assert!(two.logs.is_empty());
    assert_eq!(two.assigned_host, None);
    assert_eq!(two.assigned_host_info, None);
}

#[test]
fn status_has_one_record_for_each_instance() {
    let count = 12_u128;
    let mut events: Vec<Event> = vec![StatusEvent::Opened(Ok(())), booking_row()];
    events.push(StatusEvent::InstancesListed(Ok((0..count).map(|i| slot(100 + i, "n", None)).collect())));
    for i in 0..count {
        events.push(StatusEvent::LogsLoaded(Ok(vec![log(i as i64, "x")])));
    }
    events.push(StatusEvent::TemplateLoaded(Ok("template".to_string())));
    events.push(StatusEvent::Committed(Ok(())));
    let commands = drive(events);
    let status = answer(&commands);
    assert_eq!(status.instances.len(), count as usize);
    for i in 0..count {
        assert_eq!(status.instances[&(100 + i)].instance, 100 + i);
    }
}

#[test]
fn status_of_a_booking_without_instances() {
    let commands = drive(vec![
        StatusEvent::Opened(Ok(())),
        booking_row(),
        StatusEvent::InstancesListed(Ok(vec![])),
        StatusEvent::TemplateLoaded(Ok("template".to_string())),
        StatusEvent::Committed(Ok(())),
    ]);
    assert_eq!(commands[3], StatusCommand::LoadTemplate(TEMPLATE));
    assert!(answer(&commands).instances.is_empty());
}

#[test]
fn status_of_a_missing_booking_is_not_found() {
    let commands = drive(vec![
        StatusEvent::Opened(Ok(())),
        StatusEvent::AggregateLoaded(Err(StoreError::NotFound)),
    ]);
    let (kind, message) = failure_kind(&commands[2]);
    assert_eq!(kind, ErrorKind::NotFound);
    assert_eq!(kind.status_code(), 404);
    assert_eq!(message, "failed to look up aggregate by given ID");
}

#[test]
fn status_fails_when_the_booking_cannot_be_read() {
    let commands = drive(vec![
        StatusEvent::Opened(Ok(())),
        StatusEvent::AggregateLoaded(Err(StoreError::ConnectionLost)),
    ]);
    assert_eq!(failure_kind(&commands[2]).0, ErrorKind::Persistence);
}

#[test]
fn status_fails_when_the_store_cannot_be_opened() {
    let commands = drive(vec![StatusEvent::Opened(Err(StoreError::ConnectionLost))]);
    assert_eq!(
        failure_kind(&commands[1]),
        (ErrorKind::Persistence, "unable to open a transaction on the database")
    );
}

#[test]
fn status_fails_when_the_instances_cannot_be_listed() {
    let commands = drive(vec![
        StatusEvent::Opened(Ok(())),
        booking_row(),
        StatusEvent::InstancesListed(Err(StoreError::ConnectionLost)),
    ]);
    assert_eq!(
        failure_kind(&commands[3]),
        (ErrorKind::Persistence, "failed to list the instances of the aggregate")
    );
}

#[test]
fn status_fails_as_a_whole_when_one_history_fails() {
    let commands = drive(vec![
        StatusEvent::Opened(Ok(())),
        booking_row(),
        StatusEvent::InstancesListed(Ok(vec![slot(1, "one", None), slot(2, "two", None)])),
        StatusEvent::LogsLoaded(Ok(vec![log(1, "a")])),
        StatusEvent::LogsLoaded(Err(StoreError::ConnectionLost)),
        StatusEvent::TemplateLoaded(Ok("template".to_string())),
    ]);
    assert_eq!(
        failure_kind(&commands[5]),
        (ErrorKind::Persistence, "failed to load the provisioning log of an instance")
    );
    assert_eq!(commands[6], StatusCommand::Halt);
    assert!(!commands.iter().any(|c| matches!(c, StatusCommand::Respond(_) | StatusCommand::Commit)));
}

#[test]
fn status_fails_when_the_machine_cannot_be_read() {
    let commands = drive(vec![
        StatusEvent::Opened(Ok(())),
        booking_row(),
        StatusEvent::InstancesListed(Ok(vec![slot(1, "one", Some(400))])),
        StatusEvent::LogsLoaded(Ok(vec![])),
        StatusEvent::HostLoaded(Err(StoreError::NotFound)),
    ]);
    assert_eq!(
        failure_kind(&commands[5]),
        (ErrorKind::Persistence, "failed to look up the host linked to an instance")
    );
}

#[test]
fn status_fails_when_the_template_cannot_be_read() {
    let commands = drive(vec![
        StatusEvent::Opened(Ok(())),
        booking_row(),
        StatusEvent::InstancesListed(Ok(vec![])),
        StatusEvent::TemplateLoaded(Err(StoreError::NotFound)),
    ]);
    assert_eq!(
        failure_kind(&commands[4]),
        (ErrorKind::Persistence, "failed to look up the template of the aggregate")
    );
}

#[test]
fn status_fails_when_the_commit_fails() {
    let commands = drive(vec![
        StatusEvent::Opened(Ok(())),
        booking_row(),
        StatusEvent::InstancesListed(Ok(vec![])),
        StatusEvent::TemplateLoaded(Ok("template".to_string())),
        StatusEvent::Committed(Err(StoreError::ConnectionLost)),
    ]);
    assert_eq!(failure_kind(&commands[5]), (ErrorKind::Persistence, "failed to commit the transaction"));
}

#[test]
fn status_gives_up_on_an_answer_out_of_turn() {
    let commands = drive(vec![StatusEvent::Opened(Ok(())), StatusEvent::Committed(Ok(()))]);
    assert_eq!(failure_kind(&commands[2]), (ErrorKind::Persistence, "the store answered out of turn"));
}

#[test]
fn status_query_halts_once_it_has_answered() {
    let (query, _) = StatusQuery::<String, String>::start(BOOKING);
    assert!(!query.is_done());
    let (query, _) = query.step(StatusEvent::Opened(Err(StoreError::ConnectionLost)));
    assert!(query.is_done());
    let (query, command) = query.step(StatusEvent::Opened(Ok(())));
    assert!(query.is_done());
    assert_eq!(command, StatusCommand::Halt);
}

#[test]
fn later_row_of_one_identifier_replaces_the_earlier() {
    let commands = drive(vec![
        StatusEvent::Opened(Ok(())),
        booking_row(),
        StatusEvent::InstancesListed(Ok(vec![slot(1, "first", None), slot(1, "second", None)])),
        StatusEvent::LogsLoaded(Ok(vec![])),
        StatusEvent::LogsLoaded(Ok(vec![])),
        StatusEvent::TemplateLoaded(Ok("template".to_string())),
        StatusEvent::Committed(Ok(())),
    ]);
    let status = answer(&commands);
    assert_eq!(status.instances.len(), 1);
    assert_eq!(status.instances[&1].host_alias, "second");
}
