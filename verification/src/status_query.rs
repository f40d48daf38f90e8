//! Reading the status of a booking, one store operation at a time.
//!
//! The caller opens a unit of work, performs each command that the query
//! issues and hands back what the store answered. The query asks for the
//! booking, its instances, each instance's history and machine, and the
//! template, commits, and answers with the whole status or with the first
//! failure. It never answers with a part of the status.

use crate::error::{failure, kind_of_store_error, ErrorKind, WebError, WebErrorView};
use crate::model::{
    Aggregate, AggregateId, Host, HostId, Instance, InstanceId, LogEvent, StoreError, TemplateId,
};
use crate::status::{
    instance_status, is_chronicle, lemma_updates_are_chronological, record_of, record_views,
    status_updates, update_views, updates_of,
    BookingStatus, BookingStatusView, InstanceStatus, InstanceStatusUpdate,
    InstanceStatusUpdateView, InstanceStatusView,
};
use std::collections::HashMap;
use vstd::prelude::*;

verus! {

broadcast use vstd::std_specs::hash::group_hash_axioms;

pub const STORE_UNREACHABLE: &'static str = "unable to open a transaction on the database";

pub const AGGREGATE_LOOKUP_FAILED: &'static str = "failed to look up aggregate by given ID";

pub const INSTANCES_LOOKUP_FAILED: &'static str = "failed to list the instances of the aggregate";

pub const LOGS_LOOKUP_FAILED: &'static str = "failed to load the provisioning log of an instance";

pub const HOST_LOOKUP_FAILED: &'static str = "failed to look up the host linked to an instance";

pub const TEMPLATE_LOOKUP_FAILED: &'static str = "failed to look up the template of the aggregate";

pub const COMMIT_FAILED: &'static str = "failed to commit the transaction";

pub const OUT_OF_TURN: &'static str = "the store answered out of turn";

/// What the query is waiting for.
#[derive(Clone, Copy, Debug, PartialEq, Eq)]
pub enum StatusPhase {
    Opening,
    LoadingAggregate,
    ListingInstances,
    LoadingLogs,
    LoadingHost,
    LoadingTemplate,
    Committing,
    Done,
}

/// What the caller is to do next.
#[derive(Debug, PartialEq, Eq)]
pub enum StatusCommand<C, T> {
    OpenTransaction,
    LoadAggregate(AggregateId),
    ListInstances(AggregateId),
    LoadLogs(InstanceId),
    LoadHost(HostId),
    LoadTemplate(TemplateId),
    Commit,
    /// The unit of work is committed: answer with the status.
    Respond(BookingStatus<C, T>),
    /// Abandon the unit of work and answer with the failure.
    Abort(WebError),
    /// The query has answered already: nothing is to be done.
    Halt,
}

/// What the store answered to the last command.
#[derive(Debug, PartialEq, Eq)]
pub enum StatusEvent<C, T> {
    Opened(Result<(), StoreError>),
    AggregateLoaded(Result<Aggregate<C>, StoreError>),
    InstancesListed(Result<Vec<Instance>, StoreError>),
    LogsLoaded(Result<Vec<LogEvent>, StoreError>),
    HostLoaded(Result<Host, StoreError>),
    TemplateLoaded(Result<T, StoreError>),
    Committed(Result<(), StoreError>),
}

pub enum StatusCommandView<C, T> {
    OpenTransaction,
    LoadAggregate(AggregateId),
    ListInstances(AggregateId),
    LoadLogs(InstanceId),
    LoadHost(HostId),
    LoadTemplate(TemplateId),
    Commit,
    Respond(BookingStatusView<C, T>),
    Abort(WebErrorView),
    Halt,
}

impl<C, T> View for StatusCommand<C, T> {
    type V = StatusCommandView<C, T>;

    open spec fn view(&self) -> StatusCommandView<C, T> {
        match *self {
            StatusCommand::OpenTransaction => StatusCommandView::OpenTransaction,
            StatusCommand::LoadAggregate(id) => StatusCommandView::LoadAggregate(id),
            StatusCommand::ListInstances(id) => StatusCommandView::ListInstances(id),
            StatusCommand::LoadLogs(id) => StatusCommandView::LoadLogs(id),
            StatusCommand::LoadHost(id) => StatusCommandView::LoadHost(id),
            StatusCommand::LoadTemplate(id) => StatusCommandView::LoadTemplate(id),
            StatusCommand::Commit => StatusCommandView::Commit,
            StatusCommand::Respond(status) => StatusCommandView::Respond(status@),
            StatusCommand::Abort(error) => StatusCommandView::Abort(error@),
            StatusCommand::Halt => StatusCommandView::Halt,
        }
    }
}

/// A status query in progress.
pub struct StatusQuery<C, T> {
    aggregate: AggregateId,
    phase: StatusPhase,
    configuration: Option<C>,
    template_id: TemplateId,
    template: Option<T>,
    instances: Vec<Instance>,
    cursor: usize,
    pending: Vec<InstanceStatusUpdate>,
    records: HashMap<InstanceId, InstanceStatus>,
}

/// The state of a status query.
pub struct StatusQueryModel<C, T> {
    /// The booking asked about.
    pub aggregate: AggregateId,
    pub phase: StatusPhase,
    /// The booking's configuration, once the booking is read.
    pub configuration: Option<C>,
    /// The template that the booking names, once the booking is read.
    pub template_id: TemplateId,
    /// The template, once it is read.
    pub template: Option<T>,
    /// The booking's instances, once they are listed.
    pub instances: Seq<Instance>,
    /// How many of the instances have their record.
    pub cursor: int,
    /// The reported history of the instance whose machine is being read.
    pub pending: Seq<InstanceStatusUpdateView>,
    /// The records made so far, by instance.
    pub records: Map<InstanceId, InstanceStatusView>,
}

impl<C, T> View for StatusQuery<C, T> {
    type V = StatusQueryModel<C, T>;

    closed spec fn view(&self) -> StatusQueryModel<C, T> {
        StatusQueryModel {
            aggregate: self.aggregate,
            phase: self.phase,
            configuration: self.configuration,
            template_id: self.template_id,
            template: self.template,
            instances: self.instances@,
            cursor: self.cursor as int,
            pending: update_views(self.pending@),
            records: record_views(self.records@),
        }
    }
}

/// The state in which a query for `aggregate` starts: waiting for the unit of
/// work to open.
pub open spec fn initial<C, T>(aggregate: AggregateId) -> StatusQueryModel<C, T> {
    StatusQueryModel {
        aggregate,
        phase: StatusPhase::Opening,
        configuration: None,
        template_id: 0,
        template: None,
        instances: Seq::empty(),
        cursor: 0,
        pending: Seq::empty(),
        records: Map::empty(),
    }
}

/// The state of a query that has answered: it holds nothing any more.
pub open spec fn halted<C, T>(aggregate: AggregateId, template_id: TemplateId) -> StatusQueryModel<
    C,
    T,
> {
    StatusQueryModel {
        aggregate,
        phase: StatusPhase::Done,
        configuration: None,
        template_id,
        template: None,
        instances: Seq::empty(),
        cursor: 0,
        pending: Seq::empty(),
        records: Map::empty(),
    }
}

/// The state in which a query in state `m` is once it has answered.
pub open spec fn finished<C, T>(m: StatusQueryModel<C, T>) -> StatusQueryModel<C, T> {
    halted(m.aggregate, m.template_id)
}

/// The query gives up with a failure of `kind`.
pub open spec fn aborted<C, T>(m: StatusQueryModel<C, T>, kind: ErrorKind, message: &str) -> (
    StatusQueryModel<C, T>,
    StatusCommandView<C, T>,
) {
    (finished(m), StatusCommandView::Abort(failure(kind, message)))
}

/// The query turns to the next instance without a record, or to the template
/// when every instance has one.
pub open spec fn advanced<C, T>(m: StatusQueryModel<C, T>) -> (
    StatusQueryModel<C, T>,
    StatusCommandView<C, T>,
) {
    if 0 <= m.cursor < m.instances.len() {
        (
            StatusQueryModel { phase: StatusPhase::LoadingLogs, ..m },
            StatusCommandView::LoadLogs(m.instances[m.cursor].id),
        )
    } else {
        (
            StatusQueryModel { phase: StatusPhase::LoadingTemplate, ..m },
            StatusCommandView::LoadTemplate(m.template_id),
        )
    }
}

/// The instance at the cursor gets `record`.
pub open spec fn recorded<C, T>(
    m: StatusQueryModel<C, T>,
    record: InstanceStatusView,
) -> StatusQueryModel<C, T> {
    StatusQueryModel {
        records: m.records.insert(m.instances[m.cursor].id, record),
        cursor: m.cursor + 1,
        pending: Seq::empty(),
        ..m
    }
}

/// The next state of a query in state `m` to which the store answered `event`,
/// and what the caller is to do then.
pub open spec fn status_step<C, T>(m: StatusQueryModel<C, T>, event: StatusEvent<C, T>) -> (
    StatusQueryModel<C, T>,
    StatusCommandView<C, T>,
) {
    match (m.phase, event) {
        (StatusPhase::Done, _) => (m, StatusCommandView::Halt),
        (StatusPhase::Opening, StatusEvent::Opened(Ok(_))) => (
            StatusQueryModel { phase: StatusPhase::LoadingAggregate, ..m },
            StatusCommandView::LoadAggregate(m.aggregate),
        ),
        (StatusPhase::Opening, StatusEvent::Opened(Err(_))) => aborted(
            m,
            ErrorKind::Persistence,
            STORE_UNREACHABLE,
        ),
        (StatusPhase::LoadingAggregate, StatusEvent::AggregateLoaded(Ok(row))) => (
            StatusQueryModel {
                phase: StatusPhase::ListingInstances,
                configuration: Some(row.configuration),
                template_id: row.template,
                ..m
            },
            StatusCommandView::ListInstances(m.aggregate),
        ),
        (StatusPhase::LoadingAggregate, StatusEvent::AggregateLoaded(Err(e))) => aborted(
            m,
            kind_of_store_error(e),
            AGGREGATE_LOOKUP_FAILED,
        ),
        (StatusPhase::ListingInstances, StatusEvent::InstancesListed(Ok(rows))) => advanced(
            StatusQueryModel { instances: rows@, cursor: 0, ..m },
        ),
        (StatusPhase::ListingInstances, StatusEvent::InstancesListed(Err(_))) => aborted(
            m,
            ErrorKind::Persistence,
            INSTANCES_LOOKUP_FAILED,
        ),
        (StatusPhase::LoadingLogs, StatusEvent::LogsLoaded(Ok(logs))) => {
            let instance = m.instances[m.cursor];
            match instance.linked_host {
                Some(host) => (
                    StatusQueryModel {
                        phase: StatusPhase::LoadingHost,
                        pending: updates_of(logs@),
                        ..m
                    },
                    StatusCommandView::LoadHost(host),
                ),
                None => advanced(recorded(m, record_of(instance, updates_of(logs@), None))),
            }
        },
        (StatusPhase::LoadingLogs, StatusEvent::LogsLoaded(Err(_))) => aborted(
            m,
            ErrorKind::Persistence,
            LOGS_LOOKUP_FAILED,
        ),
        (StatusPhase::LoadingHost, StatusEvent::HostLoaded(Ok(host))) => advanced(
            recorded(m, record_of(m.instances[m.cursor], m.pending, Some(host))),
        ),
        (StatusPhase::LoadingHost, StatusEvent::HostLoaded(Err(_))) => aborted(
            m,
            ErrorKind::Persistence,
            HOST_LOOKUP_FAILED,
        ),
        (StatusPhase::LoadingTemplate, StatusEvent::TemplateLoaded(Ok(template))) => (
            StatusQueryModel { phase: StatusPhase::Committing, template: Some(template), ..m },
            StatusCommandView::Commit,
        ),
        (StatusPhase::LoadingTemplate, StatusEvent::TemplateLoaded(Err(_))) => aborted(
            m,
            ErrorKind::Persistence,
            TEMPLATE_LOOKUP_FAILED,
        ),
        (StatusPhase::Committing, StatusEvent::Committed(Ok(_))) => (
            finished(m),
            StatusCommandView::Respond(
                BookingStatusView {
                    instances: m.records,
                    config: m.configuration->0,
                    template: m.template->0,
                },
            ),
        ),
        (StatusPhase::Committing, StatusEvent::Committed(Err(_))) => aborted(
            m,
            ErrorKind::Persistence,
            COMMIT_FAILED,
        ),
        _ => aborted(m, ErrorKind::Persistence, OUT_OF_TURN),
    }
}

/// `record` is the record of `instance`: it carries the instance's identifier
/// and alias, its updates read as a history, and it names a machine exactly if
/// one is bound to the instance.
pub open spec fn describes(record: InstanceStatusView, instance: Instance) -> bool {
    &&& record.instance == instance.id
    &&& record.host_alias == instance.hostname@
    &&& is_chronicle(record.logs)
    &&& record.assigned_host_info is Some <==> instance.linked_host is Some
    &&& record.assigned_host is Some <==> instance.linked_host is Some
}

/// Whether a query in `phase` has the list of its booking's instances.
pub open spec fn listed(phase: StatusPhase) -> bool {
    phase == StatusPhase::LoadingLogs || phase == StatusPhase::LoadingHost || phase
        == StatusPhase::LoadingTemplate || phase == StatusPhase::Committing
}

/// What holds of every state that a query reaches.
pub open spec fn well_formed<C, T>(m: StatusQueryModel<C, T>) -> bool {
    &&& 0 <= m.cursor <= m.instances.len()
    &&& m.phase == StatusPhase::LoadingLogs ==> m.cursor < m.instances.len()
    &&& m.phase == StatusPhase::LoadingHost ==> m.cursor < m.instances.len()
        && m.instances[m.cursor].linked_host is Some && is_chronicle(m.pending)
    &&& m.phase == StatusPhase::LoadingTemplate ==> m.cursor == m.instances.len()
    &&& m.phase == StatusPhase::Committing ==> m.cursor == m.instances.len() && m.template is Some
    &&& listed(m.phase) || m.phase == StatusPhase::ListingInstances ==> m.configuration is Some
    &&& !listed(m.phase) ==> m.cursor == 0
    &&& m.phase != StatusPhase::Committing ==> m.template is None
    &&& m.phase != StatusPhase::LoadingHost ==> m.pending.len() == 0
    &&& forall|i: int| 0 <= i < m.cursor ==> m.records.contains_key(#[trigger] m.instances[i].id)
    &&& forall|k: InstanceId| #[trigger]
        m.records.contains_key(k) ==> exists|i: int|
            0 <= i < m.cursor && #[trigger] m.instances[i].id == k && describes(
                m.records[k],
                m.instances[i],
            )
}

/// Giving the instance at the cursor its record and turning to the next
/// leaves the query well formed.
pub proof fn lemma_recorded_keeps_well_formed<C, T>(
    m: StatusQueryModel<C, T>,
    record: InstanceStatusView,
)
    requires
        well_formed(m),
        m.phase == StatusPhase::LoadingLogs || m.phase == StatusPhase::LoadingHost,
        describes(record, m.instances[m.cursor]),
    ensures
        well_formed(advanced(recorded(m, record)).0),
{
    let r = recorded(m, record);
    let n = advanced(r).0;
    let key = m.instances[m.cursor].id;
    assert forall|i: int| 0 <= i < n.cursor implies n.records.contains_key(
        #[trigger] n.instances[i].id,
    ) by {
        if i < m.cursor {
            assert(m.records.contains_key(m.instances[i].id));
        }
    }
    assert forall|k: InstanceId| #[trigger] n.records.contains_key(k) implies exists|i: int|
        0 <= i < n.cursor && #[trigger] n.instances[i].id == k && describes(
            n.records[k],
            n.instances[i],
        ) by {
        if k == key {
            assert(n.instances[m.cursor].id == k);
        } else {
            assert(m.records.contains_key(k));
            let i = choose|i: int|
                0 <= i < m.cursor && #[trigger] m.instances[i].id == k && describes(
                    m.records[k],
                    m.instances[i],
                );
            assert(n.instances[i].id == k);
        }
    }
}

/// Every step leaves a well-formed query well formed.
pub proof fn lemma_step_keeps_well_formed<C, T>(m: StatusQueryModel<C, T>, event: StatusEvent<C, T>)
    requires
        well_formed(m),
    ensures
        well_formed(status_step(m, event).0),
{
    match (m.phase, event) {
        (StatusPhase::LoadingLogs, StatusEvent::LogsLoaded(Ok(logs))) => {
            let instance = m.instances[m.cursor];
            lemma_updates_are_chronological(logs@);
            if instance.linked_host is None {
                lemma_recorded_keeps_well_formed(
                    m,
                    record_of(instance, updates_of(logs@), None),
                );
            }
        },
        (StatusPhase::LoadingHost, StatusEvent::HostLoaded(Ok(host))) => {
            lemma_recorded_keeps_well_formed(
                m,
                record_of(m.instances[m.cursor], m.pending, Some(host)),
            );
        },
        _ => {},
    }
}

proof fn lemma_nothing_held()
    ensures
        update_views(Seq::empty()) == Seq::<InstanceStatusUpdateView>::empty(),
        record_views(Map::empty()) == Map::<InstanceId, InstanceStatusView>::empty(),
{
    assert(update_views(Seq::empty()) =~= Seq::<InstanceStatusUpdateView>::empty());
    assert(record_views(Map::empty()) =~= Map::<InstanceId, InstanceStatusView>::empty());
}

impl<C, T> StatusQuery<C, T> {
    #[verifier::type_invariant]
    spec fn inv(self) -> bool {
        well_formed(self@)
    }

    /// A query for the status of `aggregate`, and its first command.
    pub fn start(aggregate: AggregateId) -> (begun: (StatusQuery<C, T>, StatusCommand<C, T>))
        ensures
            begun.0@ == initial::<C, T>(aggregate),
            begun.1@ == StatusCommandView::<C, T>::OpenTransaction,
            well_formed(begun.0@),
    {
        proof {
            lemma_nothing_held();
        }
        let query = StatusQuery {
            aggregate,
            phase: StatusPhase::Opening,
            configuration: None,
            template_id: 0,
            template: None,
            instances: Vec::new(),
            cursor: 0,
            pending: Vec::new(),
            records: HashMap::new(),
        };
        assert(query@.pending =~= Seq::empty());
        assert(query@.records =~= Map::empty());
        (query, StatusCommand::OpenTransaction)
    }

    /// Whether the query has answered.
    pub fn is_done(&self) -> (done: bool)
        ensures
            done == (self@.phase == StatusPhase::Done),
    {
        match self.phase {
            StatusPhase::Done => true,
            _ => false,
        }
    }

    fn halt(aggregate: AggregateId, template_id: TemplateId) -> (query: StatusQuery<C, T>)
        ensures
            query@ == halted::<C, T>(aggregate, template_id),
    {
        proof {
            lemma_nothing_held();
        }
        let query = StatusQuery {
            aggregate,
            phase: StatusPhase::Done,
            configuration: None,
            template_id,
            template: None,
            instances: Vec::new(),
            cursor: 0,
            pending: Vec::new(),
            records: HashMap::new(),
        };
        assert(query@.pending =~= Seq::empty());
        assert(query@.records =~= Map::empty());
        query
    }

    fn abort(
        aggregate: AggregateId,
        template_id: TemplateId,
        kind: ErrorKind,
        message: &'static str,
    ) -> (next: (StatusQuery<C, T>, StatusCommand<C, T>))
        ensures
            next.0@ == halted::<C, T>(aggregate, template_id),
            next.1@ == StatusCommandView::<C, T>::Abort(failure(kind, message)),
    {
        (Self::halt(aggregate, template_id), StatusCommand::Abort(WebError::new(kind, message)))
    }

    fn resume(
        aggregate: AggregateId,
        configuration: Option<C>,
        template_id: TemplateId,
        instances: Vec<Instance>,
        cursor: usize,
        records: HashMap<InstanceId, InstanceStatus>,
        Ghost(m): Ghost<StatusQueryModel<C, T>>,
    ) -> (next: (StatusQuery<C, T>, StatusCommand<C, T>))
        requires
            m.aggregate == aggregate,
            m.configuration == configuration,
            m.template_id == template_id,
            m.template is None,
            m.instances == instances@,
            m.cursor == cursor,
            m.pending.len() == 0,
            m.records == record_views(records@),
            well_formed(advanced(m).0),
        ensures
            (next.0@, next.1@) == advanced(m),
    {
        proof {
            lemma_nothing_held();
            assert(m.pending =~= Seq::empty());
        }
        if cursor < instances.len() {
            let id = instances[cursor].id;
            let query = StatusQuery {
                aggregate,
                phase: StatusPhase::LoadingLogs,
                configuration,
                template_id,
                template: None,
                instances,
                cursor,
                pending: Vec::new(),
                records,
            };
            assert(query@ =~= advanced(m).0);
            (query, StatusCommand::LoadLogs(id))
        } else {
            let query = StatusQuery {
                aggregate,
                phase: StatusPhase::LoadingTemplate,
                configuration,
                template_id,
                template: None,
                instances,
                cursor,
                pending: Vec::new(),
                records,
            };
            assert(query@ =~= advanced(m).0);
            (query, StatusCommand::LoadTemplate(template_id))
        }
    }

    /// Takes what the store answered to the last command and says what is to
    /// be done next.
    pub fn step(self, event: StatusEvent<C, T>) -> (next: (
        StatusQuery<C, T>,
        StatusCommand<C, T>,
    ))
        ensures
            (next.0@, next.1@) == status_step(self@, event),
            well_formed(self@),
            well_formed(next.0@),
    {
        proof {
            use_type_invariant(&self);
            lemma_step_keeps_well_formed(self@, event);
        }
        let ghost m = self@;
        if self.is_done() {
            return (self, StatusCommand::Halt);
        }
        assert(self.cursor as int == m.cursor && self.instances@ == m.instances && self.phase
            == m.phase);
        let StatusQuery {
            aggregate,
            phase,
            configuration,
            template_id,
            template,
            instances,
            cursor,
            pending,
            mut records,
        } = self;
        match (phase, event) {
            (StatusPhase::Opening, StatusEvent::Opened(Ok(_))) => {
                let query = StatusQuery {
                    aggregate,
                    phase: StatusPhase::LoadingAggregate,
                    configuration,
                    template_id,
                    template,
                    instances,
                    cursor,
                    pending,
                    records,
                };
                (query, StatusCommand::LoadAggregate(aggregate))
            },
            (StatusPhase::Opening, StatusEvent::Opened(Err(_))) => Self::abort(
                aggregate,
                template_id,
                ErrorKind::Persistence,
                STORE_UNREACHABLE,
            ),
            (StatusPhase::LoadingAggregate, StatusEvent::AggregateLoaded(Ok(row))) => {
                let query = StatusQuery {
                    aggregate,
                    phase: StatusPhase::ListingInstances,
                    configuration: Some(row.configuration),
                    template_id: row.template,
                    template,
                    instances,
                    cursor,
                    pending,
                    records,
                };
                (query, StatusCommand::ListInstances(aggregate))
            },
            (StatusPhase::LoadingAggregate, StatusEvent::AggregateLoaded(Err(e))) => Self::abort(
                aggregate,
                template_id,
                ErrorKind::of_store_error(e),
                AGGREGATE_LOOKUP_FAILED,
            ),
            (StatusPhase::ListingInstances, StatusEvent::InstancesListed(Ok(rows))) => {
                let ghost listed = StatusQueryModel { instances: rows@, cursor: 0, ..m };
                Self::resume(aggregate, configuration, template_id, rows, 0, records, Ghost(listed))
            },
            (StatusPhase::ListingInstances, StatusEvent::InstancesListed(Err(_))) => Self::abort(
                aggregate,
                template_id,
                ErrorKind::Persistence,
                INSTANCES_LOOKUP_FAILED,
            ),
            (StatusPhase::LoadingLogs, StatusEvent::LogsLoaded(Ok(logs))) => {
                assert(cursor < instances.len());
                let updates = status_updates(logs);
                match instances[cursor].linked_host {
                    Some(host) => {
                        let query = StatusQuery {
                            aggregate,
                            phase: StatusPhase::LoadingHost,
                            configuration,
                            template_id,
                            template,
                            instances,
                            cursor,
                            pending: updates,
                            records,
                        };
                        (query, StatusCommand::LoadHost(host))
                    },
                    None => {
                        let record = instance_status(&instances[cursor], updates, None);
                        let ghost r = recorded(m, record@);
                        records.insert(instances[cursor].id, record);
                        assert(record_views(records@) =~= r.records);
                        Self::resume(
                            aggregate,
                            configuration,
                            template_id,
                            instances,
                            cursor + 1,
                            records,
                            Ghost(r),
                        )
                    },
                }
            },
            (StatusPhase::LoadingLogs, StatusEvent::LogsLoaded(Err(_))) => Self::abort(
                aggregate,
                template_id,
                ErrorKind::Persistence,
                LOGS_LOOKUP_FAILED,
            ),
            (StatusPhase::LoadingHost, StatusEvent::HostLoaded(Ok(host))) => {
                assert(cursor < instances.len());
                let record = instance_status(&instances[cursor], pending, Some(host));
                let ghost r = recorded(m, record@);
                records.insert(instances[cursor].id, record);
                assert(record_views(records@) =~= r.records);
                Self::resume(
                    aggregate,
                    configuration,
                    template_id,
                    instances,
                    cursor + 1,
                    records,
                    Ghost(r),
                )
            },
            (StatusPhase::LoadingHost, StatusEvent::HostLoaded(Err(_))) => Self::abort(
                aggregate,
                template_id,
                ErrorKind::Persistence,
                HOST_LOOKUP_FAILED,
            ),
            (StatusPhase::LoadingTemplate, StatusEvent::TemplateLoaded(Ok(found))) => {
                let query = StatusQuery {
                    aggregate,
                    phase: StatusPhase::Committing,
                    configuration,
                    template_id,
                    template: Some(found),
                    instances,
                    cursor,
                    pending,
                    records,
                };
                (query, StatusCommand::Commit)
            },
            (StatusPhase::LoadingTemplate, StatusEvent::TemplateLoaded(Err(_))) => Self::abort(
                aggregate,
                template_id,
                ErrorKind::Persistence,
                TEMPLATE_LOOKUP_FAILED,
            ),
            (StatusPhase::Committing, StatusEvent::Committed(Ok(_))) => {
                match (configuration, template) {
                    (Some(config), Some(template)) => (
                        Self::halt(aggregate, template_id),
                        StatusCommand::Respond(BookingStatus { instances: records, config, template }),
                    ),
                    _ => Self::abort(aggregate, template_id, ErrorKind::Persistence, OUT_OF_TURN),
                }
            },
            (StatusPhase::Committing, StatusEvent::Committed(Err(_))) => Self::abort(
                aggregate,
                template_id,
                ErrorKind::Persistence,
                COMMIT_FAILED,
            ),
            _ => Self::abort(aggregate, template_id, ErrorKind::Persistence, OUT_OF_TURN),
        }
    }
}

} // verus!
