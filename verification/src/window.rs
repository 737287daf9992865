//! Window callbacks

use vstd::prelude::*;

verus! {

/// When to trigger a callback
#[derive(Clone, Copy, Debug, PartialEq, Eq, Structural)]
pub enum CallbackCond {
    /// Every so many milliseconds
    TimeoutMs(u32),
}

/// The number of nanoseconds in a millisecond
pub const NANOS_PER_MILLI: u64 = 1_000_000;

impl CallbackCond {
    /// The interval between two calls, in nanoseconds: the unit in which
    /// the event manager counts time.
    pub open spec fn spec_interval(self) -> u64 {
        match self {
            CallbackCond::TimeoutMs(ms) => (ms * NANOS_PER_MILLI) as u64,
        }
    }

    /// The interval between two calls, in nanoseconds.
    #[verifier::when_used_as_spec(spec_interval)]
    pub fn interval(self) -> (nanos: u64)
        ensures
            nanos == self.spec_interval(),
            match self {
                CallbackCond::TimeoutMs(ms) => nanos == ms * NANOS_PER_MILLI,
            },
    {
        match self {
            CallbackCond::TimeoutMs(ms) => (ms as u64) * NANOS_PER_MILLI,
        }
    }
}

} // verus!
