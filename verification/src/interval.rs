//! The time until a card is shown again.
use vstd::prelude::*;

use crate::num::{u32_to_i32, wrap_i32};

verus! {

/// Seconds in a day.
pub const SECONDS_PER_DAY: u32 = 86_400;

/// The time until a card is shown again.
#[derive(Debug, Clone, Copy, PartialEq, Eq, Structural)]
pub enum IntervalKind {
    InSecs(u32),
    InDays(u32),
}

impl IntervalKind {
    /// The interval as it counts when the day ends in `secs_until_rollover` seconds:
    /// what ends after that is counted in days, today's remainder being the first.
    pub open spec fn at_rollover(self, secs_until_rollover: u32) -> IntervalKind {
        match self {
            IntervalKind::InSecs(secs) if secs >= secs_until_rollover => IntervalKind::InDays(
                (1 + (secs - secs_until_rollover) / (SECONDS_PER_DAY as int)) as u32,
            ),
            _ => self,
        }
    }

    /// The length in seconds, as far as it can be counted.
    pub open spec fn seconds(self) -> u32 {
        match self {
            IntervalKind::InSecs(secs) => secs,
            IntervalKind::InDays(days) => if days * SECONDS_PER_DAY <= u32::MAX {
                (days * SECONDS_PER_DAY) as u32
            } else {
                u32::MAX
            },
        }
    }

    /// The number that stands for the interval in the review log: days are positive,
    /// seconds negative.
    pub open spec fn logged(self) -> i32 {
        match self {
            IntervalKind::InSecs(secs) => wrap_i32(-(secs as int)),
            IntervalKind::InDays(days) => wrap_i32(days as int),
        }
    }

    /// Converts seconds that pass the end of the day into days.
    pub fn maybe_as_days(self, secs_until_rollover: u32) -> (interval: IntervalKind)
        ensures
            interval == self.at_rollover(secs_until_rollover),
    {
        match self {
            IntervalKind::InSecs(secs) => {
                if secs >= secs_until_rollover {
                    IntervalKind::InDays((secs - secs_until_rollover) / SECONDS_PER_DAY + 1)
                } else {
                    self
                }
            },
            IntervalKind::InDays(_) => self,
        }
    }

    /// The length in seconds.
    pub fn as_seconds(self) -> (secs: u32)
        ensures
            secs == self.seconds(),
    {
        match self {
            IntervalKind::InSecs(secs) => secs,
            IntervalKind::InDays(days) => {
                if days <= u32::MAX / SECONDS_PER_DAY {
                    days * SECONDS_PER_DAY
                } else {
                    u32::MAX
                }
            },
        }
    }

    /// The number that stands for the interval in the review log.
    pub fn as_revlog_interval(self) -> (logged: i32)
        ensures
            logged == self.logged(),
    {
        match self {
            IntervalKind::InSecs(secs) => {
                let signed: i32 = u32_to_i32(secs);
                if signed == i32::MIN {
                    signed
                } else {
                    -signed
                }
            },
            IntervalKind::InDays(days) => u32_to_i32(days),
        }
    }
}

} // verus!
