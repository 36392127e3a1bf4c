//! The wall clock.

use vstd::prelude::*;

verus! {

/// The Unix timestamp of `DateTime::<Utc>::MIN_UTC`, January 1 of the year -262143, the earliest
/// moment that chrono represents.
pub const EARLIEST_TIMESTAMP: i64 = -8_334_601_228_800;

/// Relies on chrono's `impl From<SystemTime> for DateTime<Utc>` and `DateTime::timestamp`: the
/// current wall-clock time in whole seconds since the Unix epoch, negative for a clock set before
/// it. The conversion only fails on a time outside chrono's range (years -262143 to 262142),
/// which the system clock cannot hold on Linux, where it counts 64-bit nanoseconds (about 292
/// years either side of 1970). A value that is returned is a timestamp of a `DateTime<Utc>`, so
/// it is never below that of `DateTime::<Utc>::MIN_UTC`.
#[verifier::external_body]
pub(crate) fn now_timestamp() -> (r: i64)
    ensures
        r >= EARLIEST_TIMESTAMP,
{
    chrono::DateTime::<chrono::Utc>::from(std::time::SystemTime::now()).timestamp()
}

} // verus!
