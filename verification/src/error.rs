//! The failures that a request can end in, and how each is reported.

use crate::model::StoreError;
use vstd::prelude::*;

verus! {

/// The kinds of failure.
#[derive(Clone, Copy, Debug, PartialEq, Eq)]
pub enum ErrorKind {
    /// The request is malformed; the store was not touched.
    Validation,
    /// The entity that the request names does not exist.
    NotFound,
    /// The entity exists but is not in the state that the operation needs.
    PreconditionFailed,
    /// The store failed, or a unit of work could not be completed.
    Persistence,
    /// The execution engine has not been set up.
    DispatchUnavailable,
    /// The execution engine was there and refused the action.
    Dispatch,
}

/// The HTTP status code under which a failure of `kind` is reported.
pub open spec fn status_code_of(kind: ErrorKind) -> u16 {
    match kind {
        ErrorKind::Validation => 400,
        ErrorKind::NotFound => 404,
        ErrorKind::PreconditionFailed => 500,
        ErrorKind::Persistence => 500,
        ErrorKind::DispatchUnavailable => 500,
        ErrorKind::Dispatch => 500,
    }
}

/// The kind under which a refusal of the store is reported: a missing row as
/// `NotFound`, anything else as `Persistence`.
pub open spec fn kind_of_store_error(error: StoreError) -> ErrorKind {
    match error {
        StoreError::NotFound => ErrorKind::NotFound,
        StoreError::ConnectionLost => ErrorKind::Persistence,
        StoreError::ConstraintViolation => ErrorKind::Persistence,
    }
}

impl ErrorKind {
    /// The HTTP status code under which this kind is reported.
    pub fn status_code(&self) -> (code: u16)
        ensures
            code == status_code_of(*self),
    {
        match self {
            ErrorKind::Validation => 400,
            ErrorKind::NotFound => 404,
            ErrorKind::PreconditionFailed => 500,
            ErrorKind::Persistence => 500,
            ErrorKind::DispatchUnavailable => 500,
            ErrorKind::Dispatch => 500,
        }
    }

    /// The kind under which a refusal of the store is reported.
    pub fn of_store_error(error: StoreError) -> (kind: ErrorKind)
        ensures
            kind == kind_of_store_error(error),
    {
        match error {
            StoreError::NotFound => ErrorKind::NotFound,
            StoreError::ConnectionLost => ErrorKind::Persistence,
            StoreError::ConstraintViolation => ErrorKind::Persistence,
        }
    }
}

/// A failure as the caller sees it: its kind and a sentence for a person.
#[derive(Debug, PartialEq, Eq)]
pub struct WebError {
    pub kind: ErrorKind,
    pub message: String,
}

/// A `WebError` with its message as a sequence of characters.
pub struct WebErrorView {
    pub kind: ErrorKind,
    pub message: Seq<char>,
}

impl View for WebError {
    type V = WebErrorView;

    open spec fn view(&self) -> WebErrorView {
        WebErrorView { kind: self.kind, message: self.message@ }
    }
}

/// The failure of `kind` that says `message`.
pub open spec fn failure(kind: ErrorKind, message: &str) -> WebErrorView {
    WebErrorView { kind, message: message@ }
}

impl WebError {
    /// The failure of `kind` that says `message`.
    pub fn new(kind: ErrorKind, message: &str) -> (error: WebError)
        ensures
            error@ == failure(kind, message),
    {
        WebError { kind, message: message.to_owned() }
    }

    /// The HTTP status code under which this failure is reported.
    pub fn status_code(&self) -> (code: u16)
        ensures
            code == status_code_of(self.kind),
            400 <= code < 600,
    {
        self.kind.status_code()
    }
}

} // verus!
