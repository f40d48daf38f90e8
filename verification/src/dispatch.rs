//! The actions that the coordinator asks the execution engine to perform.
//!
//! An action is submitted once, after the change that calls for it is
//! committed. Submission does not wait for the action to be carried out.

use crate::model::{AggregateId, HostId, InstanceId};
use vstd::prelude::*;

verus! {

/// What a notice is about.
#[derive(Clone, Copy, Debug, PartialEq, Eq)]
pub enum Situation {
    BookingExpiring,
    RequestBookingExtension,
}

/// The tag under which the engine knows `situation`.
pub open spec fn tag_of(situation: Situation) -> Seq<char> {
    match situation {
        Situation::BookingExpiring => "BookingExpiring"@,
        Situation::RequestBookingExtension => "RequestBookingExtension"@,
    }
}

impl Situation {
    /// The tag under which the engine knows this situation.
    pub fn tag(&self) -> (tag: &'static str)
        ensures
            tag@ == tag_of(*self),
    {
        match self {
            Situation::BookingExpiring => "BookingExpiring",
            Situation::RequestBookingExtension => "RequestBookingExtension",
        }
    }
}

/// A request to the execution engine.
#[derive(Debug, PartialEq, Eq)]
pub enum Action {
    /// Install the image now chosen for instance `inst_id` on its machine.
    Reimage { host_id: HostId, inst_id: InstanceId, agg_id: AggregateId },
    /// Tell the people concerned with booking `agg_id` about `situation`.
    NotifyTask { agg_id: AggregateId, situation: Situation, context: Vec<(String, String)> },
}

/// An `Action`, its texts as sequences of characters.
pub enum ActionView {
    Reimage { host_id: HostId, inst_id: InstanceId, agg_id: AggregateId },
    NotifyTask {
        agg_id: AggregateId,
        situation: Situation,
        context: Seq<(Seq<char>, Seq<char>)>,
    },
}

impl View for Action {
    type V = ActionView;

    open spec fn view(&self) -> ActionView {
        match *self {
            Action::Reimage { host_id, inst_id, agg_id } => ActionView::Reimage {
                host_id,
                inst_id,
                agg_id,
            },
            Action::NotifyTask { agg_id, situation, context } => ActionView::NotifyTask {
                agg_id,
                situation,
                context: context@.map_values(|pair: (String, String)| (pair.0@, pair.1@)),
            },
        }
    }
}

/// How an attempt to submit an action ended.
#[derive(Clone, Copy, Debug, PartialEq, Eq)]
pub enum DispatchOutcome {
    /// The engine has not been set up: nothing was submitted.
    Unavailable,
    /// The engine refused the action.
    Rejected,
    /// The engine took the action.
    Accepted,
}

} // verus!
