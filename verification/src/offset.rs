//! The library's own representation of a signed UTC offset for timestamp
//! rendering: a count of whole seconds east of UTC.

use vstd::prelude::*;

verus! {

/// Largest magnitude, in whole seconds, that a UTC offset may have:
/// 25 hours, 59 minutes and 59 seconds. This matches the range that the
/// `time` crate accepts when an offset is built from whole seconds, so a
/// valid `TimestampOffset` always converts.
pub const MAX_OFFSET_SECONDS: i32 = 93599;

/// A signed UTC offset, held as a count of whole seconds east of UTC
/// (negative values lie west of UTC). Zero is UTC itself.
#[derive(Clone, Copy, PartialEq, Eq, Structural, Debug)]
pub struct TimestampOffset {
    pub whole_seconds: i32,
}

impl TimestampOffset {
    /// The offset lies within the representable range.
    pub open spec fn is_valid(self) -> bool {
        -MAX_OFFSET_SECONDS <= self.whole_seconds <= MAX_OFFSET_SECONDS
    }

    /// The UTC offset itself: zero seconds.
    pub fn utc() -> (r: TimestampOffset)
        ensures
            r.whole_seconds == 0,
            r.is_valid(),
    {
        TimestampOffset { whole_seconds: 0 }
    }

    /// Builds an offset from a count of whole seconds, rejecting a count
    /// outside the representable range.
    pub fn from_whole_seconds(seconds: i32) -> (r: Option<TimestampOffset>)
        ensures
            r is Some <==> -MAX_OFFSET_SECONDS <= seconds <= MAX_OFFSET_SECONDS,
            r matches Some(o) ==> o.whole_seconds == seconds && o.is_valid(),
    {
        if -MAX_OFFSET_SECONDS <= seconds && seconds <= MAX_OFFSET_SECONDS {
            Some(TimestampOffset { whole_seconds: seconds })
        } else {
            None
        }
    }

    /// Builds an offset from hours, minutes and seconds, each carrying the
    /// sign of the whole offset, as an offset is usually written.
    pub fn from_hms(hours: i8, minutes: i8, seconds: i8) -> (r: Option<TimestampOffset>)
        ensures
            r is Some <==> (-25 <= hours <= 25 && -59 <= minutes <= 59 && -59 <= seconds <= 59),
            r matches Some(o) ==> o.whole_seconds == hours * 3600 + minutes * 60 + seconds
                && o.is_valid(),
    {
        if -25 <= hours && hours <= 25 && -59 <= minutes && minutes <= 59 && -59 <= seconds
            && seconds <= 59 {
            let total: i32 = (hours as i32) * 3600 + (minutes as i32) * 60 + (seconds as i32);
            Some(TimestampOffset { whole_seconds: total })
        } else {
            None
        }
    }
}

impl Default for TimestampOffset {
    /// The default offset is UTC.
    fn default() -> (r: TimestampOffset)
        ensures
            r.whole_seconds == 0,
            r.is_valid(),
    {
        TimestampOffset { whole_seconds: 0 }
    }
}

} // verus!
