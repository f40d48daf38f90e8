//! Changing the image of an instance, one operation at a time.
//!
//! The caller opens a unit of work, performs each command that the flow issues
//! and hands back the answer. The flow reads the instance, refuses if no
//! machine is bound to it, stores the new image, commits, and only then asks
//! for the machine to be reimaged. What is committed stays committed whatever
//! becomes of that request.

use crate::dispatch::{Action, ActionView, DispatchOutcome};
use crate::error::{failure, kind_of_store_error, ErrorKind, WebError, WebErrorView};
use crate::model::{AggregateId, HostId, ImageId, Instance, InstanceId, StoreError};
use vstd::prelude::*;

verus! {

pub const STORE_UNREACHABLE: &'static str = "unable to open a transaction on the database";

pub const INSTANCE_LOOKUP_FAILED: &'static str = "Error accessing image from database.";

pub const NO_LINKED_HOST: &'static str = "No linked host was found for instance.";

pub const IMAGE_UPDATE_FAILED: &'static str = "Error updating instance image.";

pub const COMMIT_FAILED: &'static str = "Error committing instance changes.";

pub const ENGINE_MISSING: &'static str = "Tascii was not found.";

pub const OUT_OF_TURN: &'static str = "the store answered out of turn";

/// What the flow is waiting for.
#[derive(Clone, Copy, Debug, PartialEq, Eq)]
pub enum ReimagePhase {
    Opening,
    Reading,
    Storing,
    Committing,
    Dispatching,
    Done,
}

/// The state of a change of image: instance `instance` is to get image
/// `image`. From `Storing` on, `host` is the machine bound to the instance and
/// `aggregate` the booking that owns it.
#[derive(Clone, Copy, Debug, PartialEq, Eq)]
pub struct ReimageState {
    pub instance: InstanceId,
    pub image: ImageId,
    pub phase: ReimagePhase,
    pub host: HostId,
    pub aggregate: AggregateId,
}

/// What the store or the engine answered to the last command.
#[derive(Debug, PartialEq, Eq)]
pub enum ReimageEvent {
    Opened(Result<(), StoreError>),
    InstanceRead(Result<Instance, StoreError>),
    ImageStored(Result<(), StoreError>),
    Committed(Result<(), StoreError>),
    Dispatched(DispatchOutcome),
}

/// What the caller is to do next.
#[derive(Debug, PartialEq, Eq)]
pub enum ReimageCommand {
    OpenTransaction,
    ReadInstance(InstanceId),
    /// Set the image of `instance` to `image` within the unit of work.
    StoreImage { instance: InstanceId, image: ImageId },
    Commit,
    /// Submit the action to the execution engine.
    Dispatch(Action),
    /// Abandon the unit of work, of which nothing is committed, and answer
    /// with the failure.
    Abort(WebError),
    /// The change is committed: answer with the result.
    Respond(Result<(), WebError>),
    /// The flow has answered already: nothing is to be done.
    Halt,
}

pub enum ReimageCommandView {
    OpenTransaction,
    ReadInstance(InstanceId),
    StoreImage { instance: InstanceId, image: ImageId },
    Commit,
    Dispatch(ActionView),
    Abort(WebErrorView),
    Respond(Result<(), WebErrorView>),
    Halt,
}

impl View for ReimageCommand {
    type V = ReimageCommandView;

    open spec fn view(&self) -> ReimageCommandView {
        match *self {
            ReimageCommand::OpenTransaction => ReimageCommandView::OpenTransaction,
            ReimageCommand::ReadInstance(id) => ReimageCommandView::ReadInstance(id),
            ReimageCommand::StoreImage { instance, image } => ReimageCommandView::StoreImage {
                instance,
                image,
            },
            ReimageCommand::Commit => ReimageCommandView::Commit,
            ReimageCommand::Dispatch(action) => ReimageCommandView::Dispatch(action@),
            ReimageCommand::Abort(error) => ReimageCommandView::Abort(error@),
            ReimageCommand::Respond(Ok(_)) => ReimageCommandView::Respond(Ok(())),
            ReimageCommand::Respond(Err(error)) => ReimageCommandView::Respond(Err(error@)),
            ReimageCommand::Halt => ReimageCommandView::Halt,
        }
    }
}

/// The state in which the change of `instance` to `image` starts: waiting for
/// the unit of work to open.
pub open spec fn initial(instance: InstanceId, image: ImageId) -> ReimageState {
    ReimageState { instance, image, phase: ReimagePhase::Opening, host: 0, aggregate: 0 }
}

/// The flow gives up before anything is committed.
pub open spec fn aborted(flow: ReimageState, kind: ErrorKind, message: &str) -> (
    ReimageState,
    ReimageCommandView,
) {
    (
        ReimageState { phase: ReimagePhase::Done, ..flow },
        ReimageCommandView::Abort(failure(kind, message)),
    )
}

/// The flow answers after the commit.
pub open spec fn answered(flow: ReimageState, answer: Result<(), WebErrorView>) -> (
    ReimageState,
    ReimageCommandView,
) {
    (ReimageState { phase: ReimagePhase::Done, ..flow }, ReimageCommandView::Respond(answer))
}

/// The action that follows the commit: reimage the machine bound to the
/// instance.
pub open spec fn reimage_action(flow: ReimageState) -> ActionView {
    ActionView::Reimage { host_id: flow.host, inst_id: flow.instance, agg_id: flow.aggregate }
}

/// The next state of a flow in state `flow` that was answered `event`, and
/// what the caller is to do then.
pub open spec fn reimage_step(flow: ReimageState, event: ReimageEvent) -> (
    ReimageState,
    ReimageCommandView,
) {
    match (flow.phase, event) {
        (ReimagePhase::Done, _) => (flow, ReimageCommandView::Halt),
        (ReimagePhase::Opening, ReimageEvent::Opened(Ok(_))) => (
            ReimageState { phase: ReimagePhase::Reading, ..flow },
            ReimageCommandView::ReadInstance(flow.instance),
        ),
        (ReimagePhase::Opening, ReimageEvent::Opened(Err(_))) => aborted(
            flow,
            ErrorKind::Persistence,
            STORE_UNREACHABLE,
        ),
        (ReimagePhase::Reading, ReimageEvent::InstanceRead(Ok(row))) => match row.linked_host {
            Some(host) => (
                ReimageState { phase: ReimagePhase::Storing, host, aggregate: row.aggregate, ..flow },
                ReimageCommandView::StoreImage { instance: flow.instance, image: flow.image },
            ),
            None => aborted(flow, ErrorKind::PreconditionFailed, NO_LINKED_HOST),
        },
        (ReimagePhase::Reading, ReimageEvent::InstanceRead(Err(e))) => aborted(
            flow,
            kind_of_store_error(e),
            INSTANCE_LOOKUP_FAILED,
        ),
        (ReimagePhase::Storing, ReimageEvent::ImageStored(Ok(_))) => (
            ReimageState { phase: ReimagePhase::Committing, ..flow },
            ReimageCommandView::Commit,
        ),
        (ReimagePhase::Storing, ReimageEvent::ImageStored(Err(_))) => aborted(
            flow,
            ErrorKind::Persistence,
            IMAGE_UPDATE_FAILED,
        ),
        (ReimagePhase::Committing, ReimageEvent::Committed(Ok(_))) => (
            ReimageState { phase: ReimagePhase::Dispatching, ..flow },
            ReimageCommandView::Dispatch(reimage_action(flow)),
        ),
        (ReimagePhase::Committing, ReimageEvent::Committed(Err(_))) => aborted(
            flow,
            ErrorKind::Persistence,
            COMMIT_FAILED,
        ),
        (ReimagePhase::Dispatching, ReimageEvent::Dispatched(DispatchOutcome::Unavailable)) => answered(
            flow,
            Err(failure(ErrorKind::DispatchUnavailable, ENGINE_MISSING)),
        ),
        (ReimagePhase::Dispatching, ReimageEvent::Dispatched(_)) => answered(flow, Ok(())),
        (ReimagePhase::Dispatching, _) => answered(
            flow,
            Err(failure(ErrorKind::Persistence, OUT_OF_TURN)),
        ),
        _ => aborted(flow, ErrorKind::Persistence, OUT_OF_TURN),
    }
}

/// A change of image in progress.
#[derive(Debug)]
pub struct ReimageFlow {
    state: ReimageState,
}

impl View for ReimageFlow {
    type V = ReimageState;

    closed spec fn view(&self) -> ReimageState {
        self.state
    }
}

impl ReimageFlow {
    /// The change of `instance` to `image`, and its first command.
    pub fn start(instance: InstanceId, image: ImageId) -> (begun: (ReimageFlow, ReimageCommand))
        ensures
            begun.0@ == initial(instance, image),
            begun.1@ == ReimageCommandView::OpenTransaction,
    {
        let state = ReimageState {
            instance,
            image,
            phase: ReimagePhase::Opening,
            host: 0,
            aggregate: 0,
        };
        (ReimageFlow { state }, ReimageCommand::OpenTransaction)
    }

    /// The state of the flow.
    pub fn state(&self) -> (state: ReimageState)
        ensures
            state == self@,
    {
        self.state
    }

    /// Whether the flow has answered.
    pub fn is_done(&self) -> (done: bool)
        ensures
            done == (self@.phase == ReimagePhase::Done),
    {
        match self.state.phase {
            ReimagePhase::Done => true,
            _ => false,
        }
    }

    fn moved(self, phase: ReimagePhase) -> (flow: ReimageFlow)
        ensures
            flow@ == (ReimageState { phase, ..self@ }),
    {
        ReimageFlow { state: ReimageState { phase, ..self.state } }
    }

    fn abort(self, kind: ErrorKind, message: &'static str) -> (next: (ReimageFlow, ReimageCommand))
        ensures
            (next.0@, next.1@) == aborted(self@, kind, message),
    {
        (self.moved(ReimagePhase::Done), ReimageCommand::Abort(WebError::new(kind, message)))
    }

    fn answer(self, answer: Result<(), WebError>) -> (next: (ReimageFlow, ReimageCommand))
        ensures
            next.0@ == (ReimageState { phase: ReimagePhase::Done, ..self@ }),
            next.1@ == ReimageCommand::Respond(answer)@,
    {
        (self.moved(ReimagePhase::Done), ReimageCommand::Respond(answer))
    }

    /// Takes the answer to the last command and says what is to be done next.
    pub fn step(self, event: ReimageEvent) -> (next: (ReimageFlow, ReimageCommand))
        ensures
            (next.0@, next.1@) == reimage_step(self@, event),
    {
        let state = self.state;
        match (state.phase, event) {
            (ReimagePhase::Done, _) => (self, ReimageCommand::Halt),
            (ReimagePhase::Opening, ReimageEvent::Opened(Ok(_))) => (
                self.moved(ReimagePhase::Reading),
                ReimageCommand::ReadInstance(state.instance),
            ),
            (ReimagePhase::Opening, ReimageEvent::Opened(Err(_))) => self.abort(
                ErrorKind::Persistence,
                STORE_UNREACHABLE,
            ),
            (ReimagePhase::Reading, ReimageEvent::InstanceRead(Ok(row))) => match row.linked_host {
                Some(host) => (
                    ReimageFlow {
                        state: ReimageState {
                            phase: ReimagePhase::Storing,
                            host,
                            aggregate: row.aggregate,
                            ..state
                        },
                    },
                    ReimageCommand::StoreImage { instance: state.instance, image: state.image },
                ),
                None => self.abort(ErrorKind::PreconditionFailed, NO_LINKED_HOST),
            },
            (ReimagePhase::Reading, ReimageEvent::InstanceRead(Err(e))) => self.abort(
                ErrorKind::of_store_error(e),
                INSTANCE_LOOKUP_FAILED,
            ),
            (ReimagePhase::Storing, ReimageEvent::ImageStored(Ok(_))) => (
                self.moved(ReimagePhase::Committing),
                ReimageCommand::Commit,
            ),
            (ReimagePhase::Storing, ReimageEvent::ImageStored(Err(_))) => self.abort(
                ErrorKind::Persistence,
                IMAGE_UPDATE_FAILED,
            ),
            (ReimagePhase::Committing, ReimageEvent::Committed(Ok(_))) => (
                self.moved(ReimagePhase::Dispatching),
                ReimageCommand::Dispatch(
                    Action::Reimage {
                        host_id: state.host,
                        inst_id: state.instance,
                        agg_id: state.aggregate,
                    },
                ),
            ),
            (ReimagePhase::Committing, ReimageEvent::Committed(Err(_))) => self.abort(
                ErrorKind::Persistence,
                COMMIT_FAILED,
            ),
            (
                ReimagePhase::Dispatching,
                ReimageEvent::Dispatched(DispatchOutcome::Unavailable),
            ) => self.answer(Err(WebError::new(ErrorKind::DispatchUnavailable, ENGINE_MISSING))),
            (ReimagePhase::Dispatching, ReimageEvent::Dispatched(_)) => self.answer(Ok(())),
            (ReimagePhase::Dispatching, _) => self.answer(
                Err(WebError::new(ErrorKind::Persistence, OUT_OF_TURN)),
            ),
            _ => self.abort(ErrorKind::Persistence, OUT_OF_TURN),
        }
    }
}

} // verus!
