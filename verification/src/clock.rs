//! The wall clock, through `chrono`.

use vstd::prelude::*;

verus! {

/// The current time in milliseconds since the Unix epoch, from
/// `chrono::Utc::now().timestamp_millis()`. It rests on the clock, so
/// nothing is stated of it.
#[verifier::external_body]
pub(crate) fn now_millis() -> i64 {
    chrono::Utc::now().timestamp_millis()
}

} // verus!
