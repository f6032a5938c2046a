use vstd::prelude::*;

verus! {

/// A time of day, as the store keeps it: whole seconds since midnight and a
/// fraction of a second in nanoseconds. A fraction of one second or more marks
/// a leap second.
#[derive(Clone, Copy, Debug, PartialEq, Eq)]
pub struct TimeOfDay {
    pub secs: u32,
    pub nanos: u32,
}

/// Seconds in a day.
pub const SECS_PER_DAY: u32 = 86400;

/// Nanoseconds in two seconds: the bound on the fraction, leap second included.
pub const NANOS_BOUND: u32 = 2_000_000_000;

impl TimeOfDay {
    /// A time of day is within the day, and its fraction is under two seconds.
    pub open spec fn wf(self) -> bool {
        self.secs < SECS_PER_DAY && self.nanos < NANOS_BOUND
    }

    /// The time at `hour:minute:second`, or `None` where one of them is out of range.
    pub fn from_hms(hour: u32, minute: u32, second: u32) -> (r: Option<TimeOfDay>)
        ensures
            r is Some <==> (hour < 24 && minute < 60 && second < 60),
            r matches Some(t) ==> t.wf() && t.nanos == 0 && t.secs == hour * 3600 + minute * 60 + second,
    {
        if hour < 24 && minute < 60 && second < 60 {
            Some(TimeOfDay { secs: hour * 3600 + minute * 60 + second, nanos: 0 })
        } else {
            None
        }
    }
}

} // verus!
