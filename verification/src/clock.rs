//! The wall clock.

use vstd::prelude::*;

verus! {

/// Calls `chrono::Utc::now()` and takes its `timestamp()`: the current time in
/// whole seconds since the Unix epoch. The value depends on the machine's
/// clock, so nothing is claimed of it.
#[verifier::external_body]
pub(crate) fn now_timestamp() -> (t: i64) {
    chrono::Utc::now().timestamp()
}

} // verus!
