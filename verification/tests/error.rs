use booking::error::{ErrorKind, WebError};
use booking::model::StoreError;

#[test]
fn each_kind_has_its_status_code() {
    assert_eq!(ErrorKind::Validation.status_code(), 400);
    assert_eq!(ErrorKind::NotFound.status_code(), 404);
    assert_eq!(ErrorKind::PreconditionFailed.status_code(), 500);
    assert_eq!(ErrorKind::Persistence.status_code(), 500);
    assert_eq!(ErrorKind::DispatchUnavailable.status_code(), 500);
    assert_eq!(ErrorKind::Dispatch.status_code(), 500);
}

#[test]
fn store_errors_map_to_kinds() {
    assert_eq!(ErrorKind::of_store_error(StoreError::NotFound), ErrorKind::NotFound);
    assert_eq!(ErrorKind::of_store_error(StoreError::ConnectionLost), ErrorKind::Persistence);
    assert_eq!(ErrorKind::of_store_error(StoreError::ConstraintViolation), ErrorKind::Persistence);
}

#[test]
fn failure_carries_kind_and_message() {
    let error = WebError::new(ErrorKind::NotFound, "no such booking");
    assert_eq!(error.kind, ErrorKind::NotFound);
    assert_eq!(error.message, "no such booking");
    assert_eq!(error.status_code(), 404);
}
