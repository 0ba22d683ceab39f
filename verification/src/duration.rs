//! Spans of time, as the wire envelope carries them.

use vstd::prelude::*;

verus! {

/// A span of time: whole seconds and nanoseconds into the next second.
/// The envelope carries one fixed span, the validity window of a
/// transaction.
#[derive(Debug, Clone, Copy, PartialEq, Eq, Structural)]
pub struct Duration(pub u64, pub u32);

/// The nanosecond part names a position inside one second.
pub open spec fn duration_wf(d: Duration) -> bool {
    d.1 < 1_000_000_000
}

impl Duration {
    /// The span of `seconds` whole seconds and `nanos` further nanoseconds.
    pub fn new(seconds: u64, nanos: u32) -> (r: Duration)
        ensures
            r == Duration(seconds, nanos),
    {
        Duration(seconds, nanos)
    }

    /// The whole-second part.
    pub fn seconds(&self) -> (r: u64)
        ensures
            r == self.0,
    {
        self.0
    }

    /// The nanosecond part.
    pub fn nanos(&self) -> (r: u32)
        ensures
            r == self.1,
    {
        self.1
    }
}

} // verus!
