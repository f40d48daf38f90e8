//! Creating and ending a booking: how the outcome is reported.
//!
//! Both operations are carried out elsewhere, each within one unit of work.
//! Creation reports a failure as a failure. Ending never does: its answer
//! always has the same shape and says in its payload whether it succeeded.

use crate::error::{failure, ErrorKind, WebError, WebErrorView};
use crate::ident::{format_uuid, uuid_text};
use crate::model::{AggregateId, StoreError};
use vstd::prelude::*;
use vstd::string::StringExecFns;

verus! {

pub const MALFORMED_BOOKING: &'static str = "the booking is malformed";

pub const CREATE_FAILED: &'static str = "unable to create the aggregate/booking";

pub const ENDED: &'static str = "Successfully ended booking with agg_id ";

pub const END_FAILED: &'static str = "Failed to end booking";

/// Why a booking was not created.
#[derive(Clone, Copy, Debug, PartialEq, Eq)]
pub enum CreateFailure {
    /// The description of the booking is malformed; nothing was written.
    Malformed,
    /// The store refused to write the booking.
    Store(StoreError),
}

/// How the failure to create a booking is reported.
pub open spec fn create_failure(reason: CreateFailure) -> WebErrorView {
    match reason {
        CreateFailure::Malformed => failure(ErrorKind::Validation, MALFORMED_BOOKING),
        CreateFailure::Store(_) => failure(ErrorKind::Persistence, CREATE_FAILED),
    }
}

/// Reports the outcome of creating a booking: its identifier, or the failure.
pub fn create_booking(outcome: Result<AggregateId, CreateFailure>) -> (answer: Result<
    AggregateId,
    WebError,
>)
    ensures
        match outcome {
            Ok(id) => answer == Ok::<AggregateId, WebError>(id),
            Err(reason) => answer is Err && answer->Err_0@ == create_failure(reason),
        },
{
    match outcome {
        Ok(id) => Ok(id),
        Err(CreateFailure::Malformed) => Err(
            WebError::new(ErrorKind::Validation, MALFORMED_BOOKING),
        ),
        Err(CreateFailure::Store(_)) => Err(WebError::new(ErrorKind::Persistence, CREATE_FAILED)),
    }
}

/// The answer to a request to end a booking.
#[derive(Debug, PartialEq, Eq)]
pub struct EndBookingResponse {
    pub success: bool,
    pub details: String,
}

pub struct EndBookingResponseView {
    pub success: bool,
    pub details: Seq<char>,
}

impl View for EndBookingResponse {
    type V = EndBookingResponseView;

    open spec fn view(&self) -> EndBookingResponseView {
        EndBookingResponseView { success: self.success, details: self.details@ }
    }
}

/// The answer to ending `aggregate` when the attempt ended in `outcome`, an
/// error being the description of what failed. A failure that came without a
/// description is described as `END_FAILED`.
pub open spec fn end_response(
    aggregate: AggregateId,
    outcome: Result<(), String>,
) -> EndBookingResponseView {
    match outcome {
        Ok(_) => EndBookingResponseView { success: true, details: ENDED@ + uuid_text(aggregate) },
        Err(description) => EndBookingResponseView {
            success: false,
            details: if description@.len() > 0 {
                description@
            } else {
                END_FAILED@
            },
        },
    }
}

/// Reports the outcome of ending `aggregate`. A failure is reported in the
/// answer, never as a failure of the request: the answer says that the
/// booking was not ended and what failed. The details are never empty.
pub fn end_booking(aggregate: AggregateId, outcome: Result<(), String>) -> (response:
    EndBookingResponse)
    ensures
        response@ == end_response(aggregate, outcome),
        response.success == (outcome is Ok),
        response.details@.len() > 0,
{
    match outcome {
        Ok(_) => {
            let name = format_uuid(aggregate);
            let mut details = ENDED.to_owned();
            details.append(name.as_str());
            proof {
                reveal_strlit("Successfully ended booking with agg_id ");
            }
            EndBookingResponse { success: true, details }
        },
        Err(description) => {
            if !description.as_str().is_empty() {
                EndBookingResponse { success: false, details: description }
            } else {
                proof {
                    reveal_strlit("Failed to end booking");
                }
                EndBookingResponse { success: false, details: END_FAILED.to_owned() }
            }
        },
    }
}

} // verus!
