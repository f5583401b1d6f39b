//! Points in time.

use vstd::prelude::*;

verus! {

/// A point in time together with the offset from UTC it was written in.
///
/// The instant is `seconds` whole seconds after the Unix epoch plus `nanos`
/// nanoseconds; a `nanos` of a thousand million or more marks a leap second.
#[derive(Debug, Clone, Copy, Eq, PartialEq, Hash)]
pub struct Timestamp {
    /// Whole seconds since 1970-01-01T00:00:00Z.
    pub seconds: i64,
    /// Nanoseconds within the second.
    pub nanos: u32,
    /// Local time minus UTC, in seconds.
    pub offset_seconds: i32,
}

impl Timestamp {
    /// The sub-second part is under two seconds and the offset under a day.
    pub open spec fn wf(self) -> bool {
        &&& self.nanos < 2_000_000_000
        &&& -86_400 < self.offset_seconds < 86_400
    }

    /// Whether the fields are in the ranges a timestamp can have.
    pub fn is_valid(&self) -> (r: bool)
        ensures
            r == self.wf(),
    {
        self.nanos < 2_000_000_000 && -86_400 < self.offset_seconds && self.offset_seconds < 86_400
    }
}

} // verus!
