//! The one place where the library reads the wall clock.

use vstd::prelude::*;

verus! {

/// Relies on `chrono::Utc::now` and `DateTime::to_rfc3339` for the
/// current time as an RFC 3339 string.  The value depends on the
/// clock, so nothing is promised of it.
#[verifier::external_body]
pub(crate) fn now_rfc3339() -> String {
    chrono::Utc::now().to_rfc3339()
}

} // verus!
