//! Fresh identifiers and the clock.

use vstd::prelude::*;

verus! {

/// A fresh identifier: calls `Uuid::new_v4` and prints the result. The
/// identifier is random, so nothing is claimed of it.
#[verifier::external_body]
pub(crate) fn uuid() -> String {
    uuid::Uuid::new_v4().to_string()
}

/// The time now, in microseconds since the Unix epoch: calls
/// `chrono::Utc::now`.
#[verifier::external_body]
pub(crate) fn now() -> i64 {
    chrono::Utc::now().timestamp_micros()
}

} // verus!
