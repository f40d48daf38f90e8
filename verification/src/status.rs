//! The status of a booking as it is reported: one record per instance, with
//! the instance's history oldest first and the machine bound to it.

use crate::model::{Host, Instance, InstanceId, LogEvent, Sentiment};
use crate::timeline::{
    is_time_ordered, lemma_time_sorted_is_ordered, lemma_time_sorted_is_permutation, sort_by_time,
    time_sorted,
};
use std::collections::HashMap;
use vstd::prelude::*;
use vstd::string::StringExecFns;

verus! {

/// The machine bound to an instance.
#[derive(Debug, PartialEq, Eq)]
pub struct AssignedHostInfo {
    pub hostname: String,
    pub ipmi_fqdn: String,
}

/// The two-part description of a provisioning event.
#[derive(Debug, PartialEq, Eq)]
pub struct StatusInfo {
    pub headline: String,
    pub subline: String,
}

/// One provisioning event as it is reported.
#[derive(Debug, PartialEq, Eq)]
pub struct InstanceStatusUpdate {
    pub status_info: StatusInfo,
    pub sentiment: Sentiment,
    /// When the event happened, as RFC 2822 text.
    pub time: String,
    /// Legacy alias of `status_info`: headline and subline in one line.
    pub status: String,
}

/// The status of one instance.
#[derive(Debug, PartialEq, Eq)]
pub struct InstanceStatus {
    pub instance: InstanceId,
    pub logs: Vec<InstanceStatusUpdate>,
    pub assigned_host_info: Option<AssignedHostInfo>,
    pub host_alias: String,
    /// Legacy alias of `assigned_host_info`: the machine's name alone.
    pub assigned_host: Option<String>,
}

/// The status of a booking. `C` is the booking's configuration and `T` the
/// template it was made from; both are handed on as they were read.
#[derive(Debug, PartialEq, Eq)]
pub struct BookingStatus<C, T> {
    pub instances: HashMap<InstanceId, InstanceStatus>,
    pub config: C,
    pub template: T,
}

pub struct AssignedHostInfoView {
    pub hostname: Seq<char>,
    pub ipmi_fqdn: Seq<char>,
}

pub struct StatusInfoView {
    pub headline: Seq<char>,
    pub subline: Seq<char>,
}

pub struct InstanceStatusUpdateView {
    pub status_info: StatusInfoView,
    pub sentiment: Sentiment,
    pub time: Seq<char>,
    pub status: Seq<char>,
}

pub struct InstanceStatusView {
    pub instance: InstanceId,
    pub logs: Seq<InstanceStatusUpdateView>,
    pub assigned_host_info: Option<AssignedHostInfoView>,
    pub host_alias: Seq<char>,
    pub assigned_host: Option<Seq<char>>,
}

pub struct BookingStatusView<C, T> {
    pub instances: Map<InstanceId, InstanceStatusView>,
    pub config: C,
    pub template: T,
}

impl View for AssignedHostInfo {
    type V = AssignedHostInfoView;

    open spec fn view(&self) -> AssignedHostInfoView {
        AssignedHostInfoView { hostname: self.hostname@, ipmi_fqdn: self.ipmi_fqdn@ }
    }
}

impl View for StatusInfo {
    type V = StatusInfoView;

    open spec fn view(&self) -> StatusInfoView {
        StatusInfoView { headline: self.headline@, subline: self.subline@ }
    }
}

impl View for InstanceStatusUpdate {
    type V = InstanceStatusUpdateView;

    open spec fn view(&self) -> InstanceStatusUpdateView {
        InstanceStatusUpdateView {
            status_info: self.status_info@,
            sentiment: self.sentiment,
            time: self.time@,
            status: self.status@,
        }
    }
}

/// The views of `updates`, in their order.
pub open spec fn update_views(updates: Seq<InstanceStatusUpdate>) -> Seq<InstanceStatusUpdateView> {
    updates.map_values(|u: InstanceStatusUpdate| u@)
}

impl View for InstanceStatus {
    type V = InstanceStatusView;

    open spec fn view(&self) -> InstanceStatusView {
        InstanceStatusView {
            instance: self.instance,
            logs: update_views(self.logs@),
            assigned_host_info: match self.assigned_host_info {
                Some(info) => Some(info@),
                None => None,
            },
            host_alias: self.host_alias@,
            assigned_host: match self.assigned_host {
                Some(name) => Some(name@),
                None => None,
            },
        }
    }
}

/// The views of the records in `records`, under their keys.
pub open spec fn record_views(records: Map<InstanceId, InstanceStatus>) -> Map<
    InstanceId,
    InstanceStatusView,
> {
    records.map_values(|s: InstanceStatus| s@)
}

impl<C, T> View for BookingStatus<C, T> {
    type V = BookingStatusView<C, T>;

    open spec fn view(&self) -> BookingStatusView<C, T> {
        BookingStatusView {
            instances: record_views(self.instances@),
            config: self.config,
            template: self.template,
        }
    }
}

/// Headline and detail in one line, as older clients read them.
pub open spec fn one_line(headline: Seq<char>, detail: Seq<char>) -> Seq<char> {
    headline + " -- "@ + detail
}

/// How `event` is reported.
pub open spec fn update_of(event: LogEvent) -> InstanceStatusUpdateView {
    InstanceStatusUpdateView {
        status_info: StatusInfoView { headline: event.headline@, subline: event.detail@ },
        sentiment: event.sentiment,
        time: crate::clock::rfc2822_text(event.time.spec_secs(), event.time.spec_nanos()),
        status: one_line(event.headline@, event.detail@),
    }
}

/// How the history `events` is reported: oldest first, each event as
/// `update_of` gives it.
pub open spec fn updates_of(events: Seq<LogEvent>) -> Seq<InstanceStatusUpdateView> {
    time_sorted(events).map_values(|e: LogEvent| update_of(e))
}

/// Whether `updates` reads as a history: it reports, one for one and in their
/// order, events of which none stands before an earlier one.
pub open spec fn is_chronicle(updates: Seq<InstanceStatusUpdateView>) -> bool {
    exists|events: Seq<LogEvent>| #[trigger]
        is_time_ordered(events) && updates == events.map_values(|e: LogEvent| update_of(e))
}

/// How `host` is reported.
pub open spec fn host_info_of(host: Host) -> AssignedHostInfoView {
    AssignedHostInfoView { hostname: host.server_name@, ipmi_fqdn: host.ipmi_fqdn@ }
}

/// The record of `instance`, whose history reads `logs` and whose machine, if
/// one is bound to it, is `host`. Without a machine both host fields are
/// absent.
pub open spec fn record_of(
    instance: Instance,
    logs: Seq<InstanceStatusUpdateView>,
    host: Option<Host>,
) -> InstanceStatusView {
    InstanceStatusView {
        instance: instance.id,
        logs,
        assigned_host_info: match host {
            Some(h) => Some(host_info_of(h)),
            None => None,
        },
        host_alias: instance.hostname@,
        assigned_host: match host {
            Some(h) => Some(h.server_name@),
            None => None,
        },
    }
}

/// A history is reported oldest first, whatever the order in which its events
/// were found: there is one update for each event, and the update at each
/// place reports the event that the sorted history has there.
pub proof fn lemma_updates_are_chronological(events: Seq<LogEvent>)
    ensures
        is_chronicle(updates_of(events)),
        updates_of(events).len() == events.len(),
        is_time_ordered(time_sorted(events)),
        time_sorted(events).to_multiset() == events.to_multiset(),
        forall|i: int|
            0 <= i < events.len() ==> #[trigger] updates_of(events)[i] == update_of(
                time_sorted(events)[i],
            ),
{
    lemma_time_sorted_is_ordered(events);
    lemma_time_sorted_is_permutation(events);
}

/// Reports one provisioning event.
pub fn status_update(event: LogEvent) -> (update: InstanceStatusUpdate)
    ensures
        update@ == update_of(event),
{
    let time = event.time.to_rfc2822();
    let mut status = event.headline.clone();
    status.append(" -- ");
    status.append(event.detail.as_str());
    InstanceStatusUpdate {
        status_info: StatusInfo { headline: event.headline, subline: event.detail },
        sentiment: event.sentiment,
        time,
        status,
    }
}

/// Reports a history: sorts it oldest first and reports each event.
pub fn status_updates(events: Vec<LogEvent>) -> (updates: Vec<InstanceStatusUpdate>)
    ensures
        update_views(updates@) == updates_of(events@),
{
    let sorted = sort_by_time(events);
    let ghost ordered = sorted@;
    let mut updates: Vec<InstanceStatusUpdate> = Vec::new();
    for event in it: sorted
        invariant
            it.seq() == ordered,
            updates@.len() == it.index(),
            forall|i: int| 0 <= i < updates@.len() ==> updates@[i]@ == update_of(ordered[i]),
    {
        updates.push(status_update(event));
    }
    assert(update_views(updates@) =~= updates_of(events@));
    updates
}

/// The record of `instance` from its reported history and its machine.
pub fn instance_status(
    instance: &Instance,
    logs: Vec<InstanceStatusUpdate>,
    host: Option<Host>,
) -> (record: InstanceStatus)
    ensures
        record@ == record_of(*instance, update_views(logs@), host),
{
    let host_alias = instance.hostname.clone();
    match host {
        Some(h) => {
            let name = h.server_name.clone();
            InstanceStatus {
                instance: instance.id,
                logs,
                assigned_host_info: Some(
                    AssignedHostInfo { hostname: h.server_name, ipmi_fqdn: h.ipmi_fqdn },
                ),
                host_alias,
                assigned_host: Some(name),
            }
        },
        None => InstanceStatus {
            instance: instance.id,
            logs,
            assigned_host_info: None,
            host_alias,
            assigned_host: None,
        },
    }
}

} // verus!
