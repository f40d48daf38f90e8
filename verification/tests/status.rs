use booking::clock::Timestamp;
use booking::model::{Host, Instance, LogEvent, Sentiment};
use booking::status::{
    instance_status, status_update, status_updates, AssignedHostInfo, InstanceStatusUpdate,
    StatusInfo,
};

fn log(secs: i64, sentiment: Sentiment, headline: &str, detail: &str) -> LogEvent {
    LogEvent {
        time: Timestamp::new(secs, 0).unwrap(),
        sentiment,
        headline: headline.to_string(),
        detail: detail.to_string(),
    }
}

fn slot(id: u128, linked_host: Option<u128>) -> Instance {
    Instance { id, aggregate: 77, hostname: "alias-one".to_string(), image: 5, linked_host }
}

#[test]
fn update_carries_every_part_of_the_event() {
    let update = status_update(log(1_057_056_757, Sentiment::Positive, "Provisioned", "host is up"));
    assert_eq!(
        update,
        InstanceStatusUpdate {
            status_info: StatusInfo {
                headline: "Provisioned".to_string(),
                subline: "host is up".to_string(),
            },
            sentiment: Sentiment::Positive,
            time: "Tue, 1 Jul 2003 10:52:37 +0000".to_string(),
            status: "Provisioned -- host is up".to_string(),
        }
    );
}

#[test]
fn update_of_an_event_without_text() {
    let update = status_update(log(0, Sentiment::Negative, "", ""));
    assert_eq!(update.status, " -- ");
    assert_eq!(update.status_info.headline, "");
    assert_eq!(update.status_info.subline, "");
    assert_eq!(update.sentiment, Sentiment::Negative);
}

#[test]
fn updates_come_oldest_first() {
    let updates = status_updates(vec![
        log(3, Sentiment::Neutral, "three", ""),
        log(1, Sentiment::Neutral, "one", ""),
        log(2, Sentiment::Neutral, "two", ""),
    ]);
    let headlines: Vec<&str> = updates.iter().map(|u| u.status_info.headline.as_str()).collect();
    assert_eq!(headlines, vec!["one", "two", "three"]);
    let times: Vec<&str> = updates.iter().map(|u| u.time.as_str()).collect();
    assert_eq!(
        times,
        vec![
            "Thu, 1 Jan 1970 00:00:01 +0000",
            "Thu, 1 Jan 1970 00:00:02 +0000",
            "Thu, 1 Jan 1970 00:00:03 +0000",
        ]
    );
}

#[test]
fn no_events_give_no_updates() {
    assert!(status_updates(Vec::new()).is_empty());
}

#[test]
fn record_without_a_machine_has_no_host_fields() {
    let record = instance_status(&slot(9, None), Vec::new(), None);
    assert_eq!(record.instance, 9);
    assert_eq!(record.host_alias, "alias-one");
    assert!(record.logs.is_empty());
    assert_eq!(record.assigned_host_info, None);
    assert_eq!(record.assigned_host, None);
}

#[test]
fn record_with_a_machine_names_it_twice() {
    let host = Host { server_name: "hpe-12".to_string(), ipmi_fqdn: "hpe-12-ipmi.lab".to_string() };
    let updates = status_updates(vec![log(10, Sentiment::Neutral, "Booting", "")]);
    let record = instance_status(&slot(9, Some(400)), updates, Some(host));
    assert_eq!(
        record.assigned_host_info,
        Some(AssignedHostInfo {
            hostname: "hpe-12".to_string(),
            ipmi_fqdn: "hpe-12-ipmi.lab".to_string(),
        })
    );
    assert_eq!(record.assigned_host, Some("hpe-12".to_string()));
    assert_eq!(record.logs.len(), 1);
    assert_eq!(record.logs[0].status, "Booting -- ");
}
