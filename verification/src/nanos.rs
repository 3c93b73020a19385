//! Timestamps counted in nanoseconds since the UNIX epoch.

use vstd::prelude::*;

verus! {

/// A count of nanoseconds since the UNIX epoch.
#[derive(Clone, Copy, Debug, PartialEq, Eq, Structural, PartialOrd, Ord, Hash)]
pub struct UnixNanos(pub u64);

impl UnixNanos {
    /// The timestamp `value` nanoseconds after the epoch.
    pub fn new(value: u64) -> (r: UnixNanos)
        ensures
            r == UnixNanos(value),
    {
        UnixNanos(value)
    }

    /// The count of nanoseconds.
    pub fn as_u64(&self) -> (r: u64)
        ensures
            r == self.0,
    {
        self.0
    }
}

} // verus!
