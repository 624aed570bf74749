//! The day that a study session falls into.
use vstd::prelude::*;

use crate::ids::TimestampSecs;
use crate::num::{at_least_zero, i64_to_u32, wrap_u32};

verus! {

/// The day that a study session falls into.
#[derive(Debug, Clone, Copy, PartialEq, Eq, Structural)]
pub struct SchedTimingToday {
    /// Days since the collection was made.
    pub days_elapsed: u32,
    /// When the next day begins, in seconds since the epoch.
    pub next_day_at: i64,
}

impl SchedTimingToday {
    /// Whether the time from `now` to the next day is a number that can be held.
    pub open spec fn rollover_fits(self, now: TimestampSecs) -> bool {
        i64::MIN <= self.next_day_at - now.0 <= i64::MAX
    }

    /// The seconds from `now` to the next day; none if that has begun.
    pub open spec fn until_rollover(self, now: TimestampSecs) -> u32 {
        wrap_u32(at_least_zero(self.next_day_at - now.0))
    }

    /// Whether [`SchedTimingToday::secs_until_rollover`] can be worked out.
    pub fn has_rollover(&self, now: TimestampSecs) -> (fits: bool)
        ensures
            fits == self.rollover_fits(now),
    {
        self.next_day_at.checked_sub(now.0).is_some()
    }

    /// The seconds from `now` to the next day.
    pub fn secs_until_rollover(&self, now: TimestampSecs) -> (secs: u32)
        requires
            self.rollover_fits(now),
        ensures
            secs == self.until_rollover(now),
    {
        let left: i64 = self.next_day_at - now.0;
        if left > 0 {
            i64_to_u32(left)
        } else {
            0
        }
    }
}

} // verus!
