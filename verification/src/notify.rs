//! Notices about a booking: that it is about to expire, and that an extension
//! is asked for.
//!
//! A notice changes nothing in the store. It is handed to the execution
//! engine, if the engine has been set up.

use crate::dispatch::{Action, ActionView, DispatchOutcome, Situation};
use crate::error::{failure, ErrorKind, WebError, WebErrorView};
use crate::model::AggregateId;
use vstd::prelude::*;

verus! {

pub const ENDING_OVERRIDE: &'static str = "ending_override";

pub const EXTENSION_DATE: &'static str = "extension_date";

pub const EXTENSION_REASON: &'static str = "extension_reason";

pub const DISPATCHER_MISSING: &'static str = "Unable to get dispatcher";

pub const NOTIFY_FAILED: &'static str = "Unable to execute notify task!";

/// A request to extend a booking to `date`, for `reason`.
#[derive(Debug, PartialEq, Eq)]
pub struct ExtensionRequest {
    pub date: String,
    pub reason: String,
}

/// The notice that booking `aggregate` expires, with `date` as the end to
/// announce.
pub open spec fn expiring_notice(aggregate: AggregateId, date: Seq<char>) -> ActionView {
    ActionView::NotifyTask {
        agg_id: aggregate,
        situation: Situation::BookingExpiring,
        context: seq![(ENDING_OVERRIDE@, date)],
    }
}

/// The notice that an extension of booking `aggregate` to `date` is asked for,
/// for `reason`.
pub open spec fn extension_notice(
    aggregate: AggregateId,
    date: Seq<char>,
    reason: Seq<char>,
) -> ActionView {
    ActionView::NotifyTask {
        agg_id: aggregate,
        situation: Situation::RequestBookingExtension,
        context: seq![(EXTENSION_DATE@, date), (EXTENSION_REASON@, reason)],
    }
}

/// The failure to report when the engine has not been set up.
pub open spec fn engine_missing() -> WebErrorView {
    failure(ErrorKind::DispatchUnavailable, DISPATCHER_MISSING)
}

/// What is to be submitted to announce that `aggregate` expires. Where the
/// engine is not ready there is nothing to submit, only the failure.
pub fn notify_aggregate_expiring(
    engine_ready: bool,
    aggregate: AggregateId,
    date_string: String,
) -> (plan: Result<Action, WebError>)
    ensures
        engine_ready ==> plan is Ok && plan->Ok_0@ == expiring_notice(aggregate, date_string@),
        !engine_ready ==> plan is Err && plan->Err_0@ == engine_missing(),
{
    if !engine_ready {
        return Err(WebError::new(ErrorKind::DispatchUnavailable, DISPATCHER_MISSING));
    }
    let mut context: Vec<(String, String)> = Vec::new();
    context.push((ENDING_OVERRIDE.to_owned(), date_string));
    let action = Action::NotifyTask {
        agg_id: aggregate,
        situation: Situation::BookingExpiring,
        context,
    };
    assert(action@ =~= expiring_notice(aggregate, date_string@)) by {
        assert(action@->NotifyTask_context =~= seq![(ENDING_OVERRIDE@, date_string@)]);
    }
    Ok(action)
}

/// What is to be submitted to ask for the extension `details` of `aggregate`.
/// Where the engine is not ready there is nothing to submit, only the failure.
pub fn request_booking_extension(
    engine_ready: bool,
    aggregate: AggregateId,
    details: ExtensionRequest,
) -> (plan: Result<Action, WebError>)
    ensures
        engine_ready ==> plan is Ok && plan->Ok_0@ == extension_notice(
            aggregate,
            details.date@,
            details.reason@,
        ),
        !engine_ready ==> plan is Err && plan->Err_0@ == engine_missing(),
{
    if !engine_ready {
        return Err(WebError::new(ErrorKind::DispatchUnavailable, DISPATCHER_MISSING));
    }
    let mut context: Vec<(String, String)> = Vec::new();
    context.push((EXTENSION_DATE.to_owned(), details.date));
    context.push((EXTENSION_REASON.to_owned(), details.reason));
    let action = Action::NotifyTask {
        agg_id: aggregate,
        situation: Situation::RequestBookingExtension,
        context,
    };
    assert(action@ =~= extension_notice(aggregate, details.date@, details.reason@)) by {
        assert(action@->NotifyTask_context =~= seq![
            (EXTENSION_DATE@, details.date@),
            (EXTENSION_REASON@, details.reason@),
        ]);
    }
    Ok(action)
}

/// How the submission of a notice is reported.
pub open spec fn notice_answer(outcome: DispatchOutcome) -> Result<(), WebErrorView> {
    match outcome {
        DispatchOutcome::Unavailable => Err(engine_missing()),
        DispatchOutcome::Rejected => Err(failure(ErrorKind::Dispatch, NOTIFY_FAILED)),
        DispatchOutcome::Accepted => Ok(()),
    }
}

/// Reports how the submission of a notice ended.
pub fn notice_response(outcome: DispatchOutcome) -> (answer: Result<(), WebError>)
    ensures
        match notice_answer(outcome) {
            Ok(_) => answer is Ok,
            Err(error) => answer is Err && answer->Err_0@ == error,
        },
{
    match outcome {
        DispatchOutcome::Unavailable => Err(
            WebError::new(ErrorKind::DispatchUnavailable, DISPATCHER_MISSING),
        ),
        DispatchOutcome::Rejected => Err(WebError::new(ErrorKind::Dispatch, NOTIFY_FAILED)),
        DispatchOutcome::Accepted => Ok(()),
    }
}

} // verus!
