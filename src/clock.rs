//! The wall clock, read through chrono.

use vstd::prelude::*;

verus! {

/// Relies on `chrono::Local::now` and `DateTime::to_rfc3339`: the local time now,
/// as RFC 3339 text. It depends on the clock, so nothing is promised of it.
#[verifier::external_body]
pub(crate) fn local_now_rfc3339() -> String {
    chrono::Local::now().to_rfc3339()
}

/// Relies on `chrono::Local::now` and `DateTime::timestamp_millis`: milliseconds
/// since the Unix epoch now. It depends on the clock, so nothing is promised of it.
#[verifier::external_body]
pub(crate) fn local_now_millis() -> i64 {
    chrono::Local::now().timestamp_millis()
}

/// Relies on `chrono::Local::now` and `DateTime::format` with `%Y.%m.%d`: today's
/// local date, as PGN writes dates. It depends on the clock, so nothing is promised
/// of it.
#[verifier::external_body]
pub(crate) fn local_date_dotted() -> String {
    chrono::Local::now().format("%Y.%m.%d").to_string()
}

} // verus!
