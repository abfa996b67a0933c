use slack_vacation::flow::{plan_write, read_display_name, ReadEvent, VacationError};
use slack_vacation::SlackProfile;

fn profile(name: &str) -> SlackProfile {
    SlackProfile {
        email: String::from("jane@example.com"),
        display_name: String::from(name),
        status_emoji: String::new(),
        status_expiration: 0,
    }
}

#[test]
fn enter_vacation_writes_marked_name() {
    let event = ReadEvent::Parsed(Some(profile("Jane Doe")));
    let planned = plan_write(false, "04/01", event);
    assert_eq!(planned.unwrap(), "Jane Doe(04/01\u{4F11})");
}

#[test]
fn return_from_vacation_writes_clean_name() {
    let event = ReadEvent::Parsed(Some(profile("Jane Doe(04/01\u{4F11})")));
    let planned = plan_write(true, "", event);
    assert_eq!(planned.unwrap(), "Jane Doe");
}

#[test]
fn missing_profile_fails_and_never_writes() {
    let event = ReadEvent::Parsed(None);
    let planned = plan_write(false, "04/01", event);
    assert_eq!(planned, Err(VacationError::MissingProfileError));
}

#[test]
fn transport_failure_aborts_both_flows() {
    assert_eq!(
        plan_write(false, "04/01", ReadEvent::TransportFailed),
        Err(VacationError::TransportError)
    );
    assert_eq!(plan_write(true, "", ReadEvent::TransportFailed), Err(VacationError::TransportError));
}

#[test]
fn bad_response_aborts_both_flows() {
    assert_eq!(plan_write(false, "04/01", ReadEvent::BadResponse), Err(VacationError::ResponseError));
    assert_eq!(plan_write(true, "", ReadEvent::BadResponse), Err(VacationError::ResponseError));
}

#[test]
fn reader_reports_each_error_class() {
    assert_eq!(
        read_display_name(ReadEvent::TransportFailed),
        Err(VacationError::TransportError)
    );
    assert_eq!(read_display_name(ReadEvent::BadResponse), Err(VacationError::ResponseError));
    assert_eq!(
        read_display_name(ReadEvent::Parsed(None)),
        Err(VacationError::MissingProfileError)
    );
}

#[test]
fn reader_returns_present_display_name() {
    let got = read_display_name(ReadEvent::Parsed(Some(profile("Jane Doe")))).unwrap();
    assert_eq!(got, "Jane Doe");
}

#[test]
fn error_messages_name_each_failure() {
    assert_eq!(VacationError::TransportError.message(), "network request failed");
    assert_eq!(
        VacationError::ResponseError.message(),
        "unexpected response from the profile service"
    );
    assert_eq!(VacationError::MissingProfileError.message(), "response held no profile");
    assert_eq!(VacationError::ConfigError.message(), "no token specified");
}
