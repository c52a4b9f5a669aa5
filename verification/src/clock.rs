//! The wall clock, read through `chrono`.
use vstd::prelude::*;

verus! {

/// The current UTC time as RFC 3339 text (`chrono::Utc::now().to_rfc3339()`).
/// Nothing is promised of the text: it depends on when it is called.
#[verifier::external_body]
pub(crate) fn now_rfc3339() -> String {
    chrono::Utc::now().to_rfc3339()
}

/// The current UTC calendar year (`chrono::Utc::now().year()`).
/// Nothing is promised of the value: it depends on when it is called.
#[verifier::external_body]
pub(crate) fn current_year() -> i32 {
    chrono::Datelike::year(&chrono::Utc::now())
}

} // verus!
