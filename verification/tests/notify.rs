use booking::dispatch::{Action, DispatchOutcome, Situation};
use booking::error::ErrorKind;
use booking::notify::{
    notice_response, notify_aggregate_expiring, request_booking_extension, ExtensionRequest,
};

#[test]
fn expiring_notice_carries_the_date() {
    let plan = notify_aggregate_expiring(true, 12, "2024-03-01".to_string());
    assert_eq!(
        plan,
        Ok(Action::NotifyTask {
            agg_id: 12,
            situation: Situation::BookingExpiring,
            context: vec![("ending_override".to_string(), "2024-03-01".to_string())],
        })
    );
}

#[test]
fn extension_notice_carries_date_and_reason() {
    let details = ExtensionRequest { date: "2024-04-01".to_string(), reason: "tests running".to_string() };
    let plan = request_booking_extension(true, 12, details);
    assert_eq!(
        plan,
        Ok(Action::NotifyTask {
            agg_id: 12,
            situation: Situation::RequestBookingExtension,
            context: vec![
                ("extension_date".to_string(), "2024-04-01".to_string()),
                ("extension_reason".to_string(), "tests running".to_string()),
            ],
        })
    );
}

#[test]
fn expiring_notice_before_the_engine_is_ready() {
    let error = notify_aggregate_expiring(false, 12, "2024-03-01".to_string()).unwrap_err();
    assert_eq!(error.kind, ErrorKind::DispatchUnavailable);
    assert_eq!(error.message, "Unable to get dispatcher");
    assert_eq!(error.status_code(), 500);
}

#[test]
fn extension_request_before_the_engine_is_ready() {
    let details = ExtensionRequest { date: "d".to_string(), reason: "r".to_string() };
    let error = request_booking_extension(false, 12, details).unwrap_err();
    assert_eq!(error.kind, ErrorKind::DispatchUnavailable);
    assert_eq!(error.message, "Unable to get dispatcher");
}

#[test]
fn submission_outcomes_are_reported() {
    assert_eq!(notice_response(DispatchOutcome::Accepted), Ok(()));
    let missing = notice_response(DispatchOutcome::Unavailable).unwrap_err();
    assert_eq!(missing.kind, ErrorKind::DispatchUnavailable);
    assert_eq!(missing.message, "Unable to get dispatcher");
    let refused = notice_response(DispatchOutcome::Rejected).unwrap_err();
    assert_eq!(refused.kind, ErrorKind::Dispatch);
    assert_eq!(refused.message, "Unable to execute notify task!");
    assert_eq!(refused.status_code(), 500);
}

#[test]
fn situations_have_their_tags() {
    assert_eq!(Situation::BookingExpiring.tag(), "BookingExpiring");
    assert_eq!(Situation::RequestBookingExtension.tag(), "RequestBookingExtension");
}
