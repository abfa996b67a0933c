//! Toggling a date-tagged vacation marker on a chat display name.
//!
//! The library holds the verified core of a small command-line tool: the
//! pure string transformation that appends or strips the marker suffix,
//! the `MM/DD` date formatting used for the default marker date, and the
//! decision logic of the read-transform-write flow. The surrounding HTTP
//! and argument-parsing glue lives outside the library.

pub mod dates;
pub mod flow;
pub mod marker;

use vstd::prelude::*;

verus! {

/// A remote profile record as the profile service reports it.
/// Only `display_name` is ever read or written by the flows.
pub struct SlackProfile {
    pub email: String,
    pub display_name: String,
    pub status_emoji: String,
    pub status_expiration: i32,
}

} // verus!
