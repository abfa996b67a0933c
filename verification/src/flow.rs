//! The decision core of one invocation: classify what the read step
//! reported, pick the next display name under the chosen flow, and say
//! whether the write step may run at all. The HTTP calls themselves
//! stay outside the library; they hand these functions plain values.

use crate::marker::{append_marker, append_spec, strip_marker, strip_spec};
use crate::SlackProfile;
use vstd::prelude::*;
use vstd::string::StringExecFns;

verus! {

/// Why an invocation failed. No flow recovers locally: each of these
/// aborts the invocation.
#[derive(Clone, Copy, Debug, PartialEq, Eq)]
pub enum VacationError {
    /// The request itself failed: connection, timeout or TLS.
    TransportError,
    /// The service answered with a non-success status, or with a body
    /// that does not parse as profile data.
    ResponseError,
    /// The body parsed, but held no profile.
    MissingProfileError,
    /// No token was supplied, found before any network call.
    ConfigError,
}

impl VacationError {
    /// A short operator-facing description of the failure.
    pub fn message(&self) -> (r: String)
        ensures
            self is TransportError ==> r@ == "network request failed"@,
            self is ResponseError ==> r@ == "unexpected response from the profile service"@,
            self is MissingProfileError ==> r@ == "response held no profile"@,
            self is ConfigError ==> r@ == "no token specified"@,
    {
        match self {
            VacationError::TransportError => String::from_str("network request failed"),
            VacationError::ResponseError => String::from_str(
                "unexpected response from the profile service",
            ),
            VacationError::MissingProfileError => String::from_str("response held no profile"),
            VacationError::ConfigError => String::from_str("no token specified"),
        }
    }
}

/// What the read step reported, as plain values.
pub enum ReadEvent {
    /// The read request itself failed.
    TransportFailed,
    /// The service answered, but with a non-success status or a body
    /// that does not parse as profile data.
    BadResponse,
    /// The body parsed; the profile was present or absent.
    Parsed(Option<SlackProfile>),
}

/// The reader's outcome: the current display name when the response
/// carried a profile, and the error class of the event otherwise. A
/// response without a profile is exactly the missing-profile failure.
pub fn read_display_name(event: ReadEvent) -> (r: Result<String, VacationError>)
    ensures
        event is TransportFailed ==> r == Result::<String, VacationError>::Err(
            VacationError::TransportError,
        ),
        event is BadResponse ==> r == Result::<String, VacationError>::Err(
            VacationError::ResponseError,
        ),
        event matches ReadEvent::Parsed(None) ==> r == Result::<String, VacationError>::Err(
            VacationError::MissingProfileError,
        ),
        event matches ReadEvent::Parsed(Some(p)) ==> (r matches Ok(n) && n@
            == p.display_name@),
{
    match event {
        ReadEvent::TransportFailed => Err(VacationError::TransportError),
        ReadEvent::BadResponse => Err(VacationError::ResponseError),
        ReadEvent::Parsed(None) => Err(VacationError::MissingProfileError),
        ReadEvent::Parsed(Some(p)) => Ok(p.display_name),
    }
}

/// The transformer step: the next display name under the chosen flow —
/// the marker stripped when returning from vacation, and the marker for
/// `date` appended when entering it.
pub fn next_display_name(back: bool, date: &str, current: &str) -> (r: String)
    ensures
        back ==> r@ == strip_spec(current@),
        !back ==> r@ == append_spec(current@, date@),
{
    if back {
        strip_marker(current)
    } else {
        append_marker(current, date)
    }
}

/// One whole invocation's decision: from what the read step reported
/// to either the value the write step must send, or the error that
/// aborts the flow. On any error — the missing-profile case included —
/// the result is `Err`, so the write step is never invoked.
pub fn plan_write(back: bool, date: &str, event: ReadEvent) -> (r: Result<String, VacationError>)
    ensures
        event is TransportFailed ==> r == Result::<String, VacationError>::Err(
            VacationError::TransportError,
        ),
        event is BadResponse ==> r == Result::<String, VacationError>::Err(
            VacationError::ResponseError,
        ),
        event matches ReadEvent::Parsed(None) ==> r == Result::<String, VacationError>::Err(
            VacationError::MissingProfileError,
        ),
        event matches ReadEvent::Parsed(Some(p)) ==> (back ==> (r matches Ok(n) && n@
            == strip_spec(p.display_name@))),
        event matches ReadEvent::Parsed(Some(p)) ==> (!back ==> (r matches Ok(n) && n@
            == append_spec(p.display_name@, date@))),
{
    match read_display_name(event) {
        Ok(current) => Ok(next_display_name(back, date, current.as_str())),
        Err(e) => Err(e),
    }
}

} // verus!
