use vstd::prelude::*;

verus! {

/// A point in time on the UTC scale: whole seconds since the start of 1970,
/// not counting leap seconds, and the nanoseconds past that second. During a
/// leap second the nanoseconds run into a second billion.
#[derive(Copy, Clone, PartialEq, Eq, Structural, PartialOrd, Ord, Hash, Debug)]
pub struct Timestamp {
    pub secs: i64,
    pub nanos: u32,
}

impl Timestamp {
    /// The timestamp with the given seconds and nanoseconds.
    pub fn new(secs: i64, nanos: u32) -> (r: Timestamp)
        ensures
            r.secs == secs,
            r.nanos == nanos,
    {
        Timestamp { secs, nanos }
    }
}

} // verus!
