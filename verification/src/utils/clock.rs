//! The wall clock, read in whole seconds since the Unix epoch.

use vstd::prelude::*;

verus! {

/// `Utc::now().timestamp()` of chrono: the current time in seconds since the
/// epoch. The value depends on when the call is made; all that is claimed of
/// it is that it is not negative, since chrono measures the time that has
/// passed since the epoch and stops the process where the system clock stands
/// before it.
#[verifier::external_body]
pub(crate) fn current_timestamp() -> (now: i64)
    ensures
        now >= 0,
{
    chrono::Utc::now().timestamp()
}

} // verus!
