//! A reading of the clock, held as plain numbers so that the generators are
//! functions of it.

use vstd::prelude::*;
use crate::backend::system_clock;
use crate::layout::{gregorian_ticks, unix_millis};

verus! {

/// The value that the clock sequence starts from.
pub const CLOCK_SEED: u16 = 42;

/// The number of bits of a clock sequence that an identifier holds.
pub const CLOCK_SEQUENCE_BITS: u8 = 14;

/// A point in time after the Unix epoch, with the clock sequence that tells
/// identifiers of one tick apart. Only the low fourteen bits of `counter`
/// reach an identifier, and only one of version one or six.
#[derive(Clone, Copy, Debug, PartialEq, Eq)]
pub struct Timestamp {
    /// Whole seconds since 1970-01-01 00:00:00.
    pub seconds: u64,
    /// Nanoseconds after the last whole second.
    pub subsec_nanos: u32,
    /// The clock sequence.
    pub counter: u16,
}

impl Timestamp {
    /// The time in 100-nanosecond ticks since 1582-10-15.
    pub open spec fn ticks(&self) -> u64 {
        gregorian_ticks(self.seconds, self.subsec_nanos)
    }

    /// The time in milliseconds since the Unix epoch.
    pub open spec fn millis(&self) -> u64 {
        unix_millis(self.seconds, self.subsec_nanos)
    }

    /// Reads the system clock and starts a clock sequence at `seed`, of which
    /// the low fourteen bits are kept. The time is whatever the clock says.
    pub fn now(seed: u16) -> (ts: Timestamp)
        ensures
            ts.counter == seed & 0x3FFF,
    {
        let reading = system_clock(seed);
        Timestamp { seconds: reading.0, subsec_nanos: reading.1, counter: reading.2 }
    }
}

} // verus!
