//! Points in time.

use vstd::prelude::*;

verus! {

/// A point in time: whole seconds since the Unix epoch and the nanoseconds
/// past that second.
#[derive(Debug, Clone, Copy, PartialEq, Eq, Structural)]
pub struct Timestamp {
    pub secs: i64,
    pub nanos: u32,
}

/// The nanoseconds from `then` to `now`, negative where `then` is later.
pub open spec fn nanos_between(now: Timestamp, then: Timestamp) -> int {
    (now.secs - then.secs) * 1_000_000_000 + (now.nanos - then.nanos)
}

/// The nanoseconds from `then` to `now`.
pub fn elapsed_nanos(now: Timestamp, then: Timestamp) -> (res: i128)
    ensures
        res == nanos_between(now, then),
{
    ((now.secs as i128) - (then.secs as i128)) * 1_000_000_000i128
        + ((now.nanos as i128) - (then.nanos as i128))
}

} // verus!
