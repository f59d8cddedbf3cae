//! The wall clock, in seconds since the Unix epoch.

use vstd::prelude::*;

verus! {

/// `Utc::now().timestamp()`: the current time in whole seconds since the Unix
/// epoch. Nothing is claimed of the number: two readings may differ in either
/// direction, as a clock can be set back.
#[verifier::external_body]
pub(crate) fn utc_timestamp() -> i64 {
    chrono::Utc::now().timestamp()
}

} // verus!
