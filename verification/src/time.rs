//! The engine's timestamp type and the host clock behind it.

use std::time::{SystemTime, UNIX_EPOCH};
use vstd::prelude::*;

verus! {

/// A timestamp as the engine carries it: seconds since the Unix epoch.
#[derive(Clone, Copy, Debug, PartialEq, Eq, PartialOrd, Ord, Structural)]
pub struct FlashDBTime(i64);

impl FlashDBTime {
    /// The raw seconds value.
    pub closed spec fn spec_raw(self) -> i64 {
        self.0
    }

    /// The current time of the host clock. A clock before the epoch reads as
    /// zero; the result is never negative.
    pub fn now() -> (r: FlashDBTime)
        ensures
            r.spec_raw() >= 0,
    {
        FlashDBTime(system_time_secs())
    }

    /// Wraps a raw seconds value.
    pub fn from_raw(value: i64) -> (r: FlashDBTime)
        ensures
            r.spec_raw() == value,
    {
        FlashDBTime(value)
    }

    /// The raw seconds value.
    pub fn as_raw(&self) -> (r: i64)
        ensures
            r == self.spec_raw(),
    {
        self.0
    }
}

/// The current host time in raw seconds, for handing to the engine. Never
/// negative.
pub fn current_timestamp() -> (r: i64)
    ensures
        r >= 0,
{
    FlashDBTime::now().as_raw()
}

/// Relies on `std::time::SystemTime::now` and
/// `SystemTime::duration_since(UNIX_EPOCH)`: whole seconds since the epoch,
/// clamped to zero for a clock before the epoch or a value past `i64`.
#[verifier::external_body]
fn system_time_secs() -> (r: i64)
    ensures
        r >= 0,
{
    match SystemTime::now().duration_since(UNIX_EPOCH) {
        Ok(d) => i64::try_from(d.as_secs()).unwrap_or(0),
        Err(_) => 0,
    }
}

} // verus!
