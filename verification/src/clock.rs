//! The wall clock, read through the chrono crate.
//!
//! Nothing can be promised about what a clock returns: the callers state
//! what holds of their result whatever time comes back, or take the time
//! as an argument.

use vstd::prelude::*;

verus! {

/// Relies on `chrono::Local::now` and `DateTime::timestamp`: the current
/// wall-clock time as whole seconds since the Unix epoch.
#[verifier::external_body]
pub(crate) fn timestamp_now() -> (t: i64) {
    chrono::Local::now().timestamp()
}

/// Relies on `chrono::Local::now` and its `Display` implementation: the
/// current local time written out with its UTC offset.
#[verifier::external_body]
pub(crate) fn local_now_text() -> (s: String) {
    chrono::Local::now().to_string()
}

} // verus!
