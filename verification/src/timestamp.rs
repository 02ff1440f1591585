//! Instants in time, as plain values.
//!
//! A release's publish time and a file's modification time are both carried as
//! a count of whole seconds since the Unix epoch together with the nanoseconds
//! of the current second. Comparing two instants is lexicographic on that pair.

use vstd::prelude::*;

verus! {

/// A timezone-independent instant: seconds since the Unix epoch, plus the
/// nanosecond part of the current second.
#[derive(Clone, Copy, Debug, PartialEq, Eq, Structural)]
pub struct Timestamp {
    pub secs: i64,
    pub nanos: u32,
}

impl Timestamp {
    /// `self` lies strictly earlier than `other`.
    pub open spec fn spec_before(self, other: Timestamp) -> bool {
        self.secs < other.secs || (self.secs == other.secs && self.nanos < other.nanos)
    }

    /// Decides whether `self` lies strictly earlier than `other`.
    pub fn is_before(&self, other: &Timestamp) -> (r: bool)
        ensures
            r == self.spec_before(*other),
    {
        self.secs < other.secs || (self.secs == other.secs && self.nanos < other.nanos)
    }
}

} // verus!
