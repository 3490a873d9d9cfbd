//! Monotonic time as seen by the event loop.

use vstd::prelude::*;

verus! {

/// A point on the loop's monotonic clock, in nanoseconds since the loop's epoch.
#[derive(Clone, Copy, Debug, PartialEq, Eq, Structural)]
pub struct Instant {
    pub nanos: u64,
}

impl Instant {
    /// The instant `nanos` nanoseconds after the epoch.
    pub fn from_nanos(nanos: u64) -> (t: Instant)
        ensures
            t.nanos == nanos,
    {
        Instant { nanos }
    }
}

} // verus!
