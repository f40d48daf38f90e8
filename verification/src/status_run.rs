//! What holds of every status query from its start to its answer.

use crate::model::{AggregateId, Instance, InstanceId, LogEvent};
use crate::status::{is_chronicle, updates_of};
use crate::status_query::{
    describes, initial, lemma_step_keeps_well_formed, listed, status_step, well_formed,
    StatusCommandView, StatusEvent, StatusPhase, StatusQueryModel,
};
use vstd::prelude::*;

verus! {

/// The identifiers of `rows`, in their order.
pub open spec fn ids_of(rows: Seq<Instance>) -> Seq<InstanceId> {
    rows.map_values(|row: Instance| row.id)
}

/// The state of a query that started in state `m` and was handed `events`,
/// one after the other.
pub open spec fn state_after<C, T>(
    m: StatusQueryModel<C, T>,
    events: Seq<StatusEvent<C, T>>,
) -> StatusQueryModel<C, T>
    decreases events.len(),
{
    if events.len() == 0 {
        m
    } else {
        status_step(state_after(m, events.drop_last()), events.last()).0
    }
}

/// The command with which a query that started in state `m` replies to the
/// last of `events`.
pub open spec fn reply_to<C, T>(
    m: StatusQueryModel<C, T>,
    events: Seq<StatusEvent<C, T>>,
) -> StatusCommandView<C, T>
    recommends
        events.len() > 0,
{
    status_step(state_after(m, events.drop_last()), events.last()).1
}

/// The command with which a query that started in state `m` and is handed
/// `events` replies to the event at place `i`.
pub open spec fn reply_at<C, T>(
    m: StatusQueryModel<C, T>,
    events: Seq<StatusEvent<C, T>>,
    i: int,
) -> StatusCommandView<C, T>
    recommends
        0 <= i < events.len(),
{
    reply_to(m, events.take(i + 1))
}

/// Whether a query in `phase` has asked for the commit or has answered.
pub open spec fn past_reading(phase: StatusPhase) -> bool {
    phase == StatusPhase::Committing || phase == StatusPhase::Done
}

/// A query that has asked for the commit or has answered reads no more: it
/// stays past reading whatever it is handed.
pub proof fn lemma_past_reading_stays<C, T>(
    m: StatusQueryModel<C, T>,
    events: Seq<StatusEvent<C, T>>,
    k: int,
)
    requires
        0 <= k <= events.len(),
        past_reading(state_after(m, events.take(k)).phase),
    ensures
        past_reading(state_after(m, events).phase),
    decreases events.len() - k,
{
    if k < events.len() {
        assert(events.take(k + 1).drop_last() =~= events.take(k));
        assert(events.take(k + 1).last() == events[k]);
        lemma_past_reading_stays(m, events, k + 1);
    } else {
        assert(events.take(k) =~= events);
    }
}

/// A query works in one unit of work and commits it at most once.
///
/// The unit of work is opened by the first command of the query. No reply
/// asks to open another, and of two replies at most one asks for the commit.
pub proof fn lemma_one_unit_of_work<C, T>(
    m: StatusQueryModel<C, T>,
    events: Seq<StatusEvent<C, T>>,
    i: int,
    j: int,
)
    requires
        0 <= i < j < events.len(),
    ensures
        !(reply_at(m, events, i) is OpenTransaction),
        !(reply_at(m, events, j) is OpenTransaction),
        !(reply_at(m, events, i) is Commit && reply_at(m, events, j) is Commit),
{
    if reply_at(m, events, i) is Commit {
        let upto = events.take(j);
        assert(upto.take(i + 1) =~= events.take(i + 1));
        assert(past_reading(state_after(m, upto.take(i + 1)).phase));
        lemma_past_reading_stays(m, upto, i + 1);
        assert(events.take(j + 1).drop_last() =~= upto);
    }
}

/// Where a query stands in the exchange: the booking is the second answer of
/// the store and the list of instances the third, and the query holds what
/// they said.
pub open spec fn on_course<C, T>(
    m: StatusQueryModel<C, T>,
    events: Seq<StatusEvent<C, T>>,
) -> bool {
    &&& m.phase == StatusPhase::Opening ==> events.len() == 0
    &&& m.phase == StatusPhase::LoadingAggregate ==> events.len() == 1
    &&& m.phase == StatusPhase::ListingInstances ==> events.len() == 2
    &&& m.phase == StatusPhase::ListingInstances || listed(m.phase) ==> {
        &&& events.len() >= 2
        &&& events[1] matches StatusEvent::AggregateLoaded(Ok(row))
        &&& m.configuration == Some(row.configuration)
    }
    &&& listed(m.phase) ==> {
        &&& events.len() >= 3
        &&& events[2] matches StatusEvent::InstancesListed(Ok(rows))
        &&& m.instances == rows@
    }
}

/// Every state that a query reaches from its start is well formed and on
/// course.
pub proof fn lemma_run_stays_on_course<C, T>(
    aggregate: AggregateId,
    events: Seq<StatusEvent<C, T>>,
)
    ensures
        well_formed(state_after(initial::<C, T>(aggregate), events)),
        on_course(state_after(initial::<C, T>(aggregate), events), events),
    decreases events.len(),
{
    if events.len() > 0 {
        let before = events.drop_last();
        lemma_run_stays_on_course(aggregate, before);
        let m = state_after(initial::<C, T>(aggregate), before);
        lemma_step_keeps_well_formed(m, events.last());
        if before.len() >= 2 {
            assert(before[1] == events[1]);
        }
        if before.len() >= 3 {
            assert(before[2] == events[2]);
        }
    }
}

/// A status names every instance of the booking, and nothing else.
///
/// When a query answers with a status, the store's third answer was the list
/// of the booking's instances, and the status has a record under the
/// identifier of each of them and under no other key. Each record carries the
/// identifier it stands under, and its updates read as a history, oldest
/// first. Where no identifier occurs twice in the list,
/// the status has as many records as the booking has instances, and the record
/// of each instance carries its alias and names a machine exactly if one is
/// bound to the instance. The configuration is the one the booking was read
/// with.
pub proof fn lemma_status_names_every_instance<C, T>(
    aggregate: AggregateId,
    events: Seq<StatusEvent<C, T>>,
)
    requires
        events.len() > 0,
        reply_to(initial::<C, T>(aggregate), events) is Respond,
    ensures
        events.len() >= 3,
        events.last() matches StatusEvent::Committed(Ok(_)),
        events[1] is AggregateLoaded,
        events[1]->AggregateLoaded_0 is Ok,
        events[2] is InstancesListed,
        events[2]->InstancesListed_0 is Ok,
        ({
            let rows = events[2]->InstancesListed_0->Ok_0@;
            let status = reply_to(initial::<C, T>(aggregate), events)->Respond_0;
            &&& status.config == events[1]->AggregateLoaded_0->Ok_0.configuration
            &&& status.instances.dom() == ids_of(rows).to_set()
            &&& forall|k: InstanceId| #[trigger]
                status.instances.contains_key(k) ==> status.instances[k].instance == k
                    && is_chronicle(status.instances[k].logs)
            &&& ids_of(rows).no_duplicates() ==> {
                &&& status.instances.dom().len() == rows.len()
                &&& forall|i: int|
                    0 <= i < rows.len() ==> describes(
                        status.instances[#[trigger] rows[i].id],
                        rows[i],
                    )
            }
        }),
{
    let before = events.drop_last();
    let m = state_after(initial::<C, T>(aggregate), before);
    lemma_run_stays_on_course(aggregate, before);
    assert(m.phase == StatusPhase::Committing);
    assert(before[1] == events[1] && before[2] == events[2]);
    let rows = events[2]->InstancesListed_0->Ok_0@;
    let status = reply_to(initial::<C, T>(aggregate), events)->Respond_0;
    assert(status.instances == m.records);
    let ids = ids_of(rows);
    assert forall|k: InstanceId| #[trigger]
        status.instances.contains_key(k) implies status.instances[k].instance == k
        && is_chronicle(status.instances[k].logs) && ids.to_set().contains(k) by {
        let i = choose|i: int|
            0 <= i < m.cursor && #[trigger] m.instances[i].id == k && describes(
                m.records[k],
                m.instances[i],
            );
        assert(ids[i] == k);
    }
    assert forall|k: InstanceId| ids.to_set().contains(k) implies status.instances.contains_key(
        k,
    ) by {
        let i = choose|i: int| 0 <= i < ids.len() && ids[i] == k;
        assert(m.records.contains_key(m.instances[i].id));
    }
    assert(status.instances.dom() =~= ids.to_set());
    if ids.no_duplicates() {
        ids.unique_seq_to_set();
        assert forall|i: int| 0 <= i < rows.len() implies describes(
            status.instances[#[trigger] rows[i].id],
            rows[i],
        ) by {
            let k = rows[i].id;
            assert(m.records.contains_key(m.instances[i].id));
            let j = choose|j: int|
                0 <= j < m.cursor && #[trigger] m.instances[j].id == k && describes(
                    m.records[k],
                    m.instances[j],
                );
            assert(ids[i] == k && ids[j] == k);
        }
    }
}

/// An instance without a machine is no failure.
///
/// When the history of an instance arrives and no machine is bound to the
/// instance, the query does not give up: it makes the instance's record at
/// once, with the history oldest first and both host fields absent, and turns
/// to the next instance or to the template.
pub proof fn lemma_unbound_instance_is_recorded<C, T>(
    m: StatusQueryModel<C, T>,
    logs: Vec<LogEvent>,
)
    requires
        well_formed(m),
        m.phase == StatusPhase::LoadingLogs,
        m.instances[m.cursor].linked_host is None,
    ensures
        ({
            let next = status_step(m, StatusEvent::LogsLoaded(Ok(logs)));
            let id = m.instances[m.cursor].id;
            &&& next.1 is LoadLogs || next.1 is LoadTemplate
            &&& next.0.cursor == m.cursor + 1
            &&& next.0.records.contains_key(id)
            &&& next.0.records[id].instance == id
            &&& next.0.records[id].logs == updates_of(logs@)
            &&& next.0.records[id].assigned_host_info is None
            &&& next.0.records[id].assigned_host is None
        }),
{
}

/// A status is all or nothing.
///
/// Whatever the store answers, a query replies with a status only to a commit
/// that the store performed. Every failure of the store makes the reply a
/// failure, and after a failure or a status nothing more is asked of the
/// store.
pub proof fn lemma_status_is_all_or_nothing<C, T>(
    m: StatusQueryModel<C, T>,
    event: StatusEvent<C, T>,
)
    ensures
        status_step(m, event).1 is Respond ==> m.phase == StatusPhase::Committing && (
        event matches StatusEvent::Committed(Ok(_))),
        m.phase != StatusPhase::Done && failed(event) ==> status_step(m, event).1 is Abort,
        status_step(m, event).1 is Respond || status_step(m, event).1 is Abort ==> status_step(
            m,
            event,
        ).0.phase == StatusPhase::Done,
        m.phase == StatusPhase::Done ==> status_step(m, event) == (m, StatusCommandView::<C, T>::Halt),
{
}

/// Whether `event` says that the store failed.
pub open spec fn failed<C, T>(event: StatusEvent<C, T>) -> bool {
    match event {
        StatusEvent::Opened(answer) => answer is Err,
        StatusEvent::AggregateLoaded(answer) => answer is Err,
        StatusEvent::InstancesListed(answer) => answer is Err,
        StatusEvent::LogsLoaded(answer) => answer is Err,
        StatusEvent::HostLoaded(answer) => answer is Err,
        StatusEvent::TemplateLoaded(answer) => answer is Err,
        StatusEvent::Committed(answer) => answer is Err,
    }
}

} // verus!
