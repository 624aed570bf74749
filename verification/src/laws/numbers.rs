//! Conversions, days, intervals and steps.
use vstd::prelude::*;

use crate::ids::TimestampSecs;
use crate::interval::IntervalKind;
use crate::num::{i64_to_i32, i64_to_u32, i64_to_u64, u32_to_i32, u32_to_u16};
use crate::steps::LearningSteps;
use crate::timing::SchedTimingToday;
use crate::updater::CardStateUpdater;

verus! {

/// Whether two numbers have the same low 32 bits.
pub open spec fn same_low_bits(one: int, other: int) -> bool {
    (one - other) % 0x1_0000_0000 == 0
}

/// The number that holds the low 32 bits of `x` in two's complement.
pub open spec fn low_i32(x: int) -> int {
    choose|low: int| #[trigger] same_low_bits(low, x) && -0x8000_0000 <= low < 0x8000_0000
}

/// There is one such number, and it is `low`.
pub proof fn lemma_low_i32(x: int, low: int)
    requires
        same_low_bits(low, x),
        -0x8000_0000 <= low < 0x8000_0000,
    ensures
        low_i32(x) == low,
{
}

/// A conversion changes a number by multiples of the target's range only, so that a
/// number that fits is kept.
pub proof fn law_conversions_keep_low_bits(
    x: i64,
    y: u32,
    as_u64: u64,
    as_u32: u32,
    as_i32: i32,
    signed: i32,
)
    requires
        call_ensures(i64_to_u64, (x,), as_u64),
        call_ensures(i64_to_u32, (x,), as_u32),
        call_ensures(i64_to_i32, (x,), as_i32),
        call_ensures(u32_to_i32, (y,), signed),
    ensures
        (as_u64 - x) % 0x1_0000_0000_0000_0000 == 0,
        same_low_bits(as_u32 as int, x as int),
        same_low_bits(as_i32 as int, x as int),
        same_low_bits(signed as int, y as int),
        x >= 0 ==> as_u64 == x,
        0 <= x <= u32::MAX ==> as_u32 == x,
        i32::MIN <= x <= i32::MAX ==> as_i32 == x,
        y <= i32::MAX ==> signed == y,
{
}

/// What is stored in 16 bits is the number itself or, where that is too large, the
/// largest one that can be stored.
pub proof fn law_storing_stops_at_the_largest(x: u32, kept: u16)
    requires
        call_ensures(u32_to_u16, (x,), kept),
    ensures
        kept <= x,
        x <= 65_535 ==> kept == x,
        x > 65_535 ==> kept == 65_535,
{
}

/// The rest of the day is the time up to its end, and nothing once it has ended.
pub proof fn law_rest_of_the_day(timing: SchedTimingToday, now: TimestampSecs, left: u32)
    requires
        call_ensures(SchedTimingToday::secs_until_rollover, (&timing, now), left),
    ensures
        timing.next_day_at <= now.0 ==> left == 0,
        timing.next_day_at > now.0 ==> same_low_bits(left as int, timing.next_day_at - now.0),
        0 <= timing.next_day_at - now.0 <= u32::MAX ==> now.0 + left == timing.next_day_at,
{
}

/// The rest of the day can be asked for if the time up to its end can be held, and that
/// can be found out.
pub proof fn law_rest_of_the_day_can_be_asked(
    timing: SchedTimingToday,
    now: TimestampSecs,
    known: bool,
)
    requires
        call_ensures(SchedTimingToday::has_rollover, (&timing, now), known),
    ensures
        known <==> i64::MIN <= timing.next_day_at - now.0 <= i64::MAX,
        known ==> call_requires(SchedTimingToday::secs_until_rollover, (&timing, now)),
        call_requires(SchedTimingToday::has_rollover, (&timing, now)),
{
}

/// A card's updater counts the rest of its own day from its own time.
pub proof fn law_updater_uses_its_own_day(updater: CardStateUpdater, left: u32, same: u32)
    requires
        call_ensures(CardStateUpdater::secs_until_rollover, (&updater,), left),
        call_ensures(
            SchedTimingToday::secs_until_rollover,
            (&updater.timing, updater.now),
            same,
        ),
    ensures
        left == same,
{
}

/// An interval that ends before the day does, or is counted in days, stays as it is.
/// Another one becomes the number of the day that it ends on, where the day that comes
/// next is the first and each lasts 86400 seconds.
pub proof fn law_intervals_past_the_day_become_days(
    interval: IntervalKind,
    left: u32,
    counted: IntervalKind,
)
    requires
        call_ensures(IntervalKind::maybe_as_days, (interval, left), counted),
    ensures
        interval is InDays ==> counted == interval,
        interval matches IntervalKind::InSecs(secs) ==> {
            if secs < left {
                counted == interval
            } else {
                counted matches IntervalKind::InDays(days) && days >= 1 && left + (days - 1)
                    * 86_400 <= secs < left + days * 86_400
            }
        },
{
}

/// A day has 86400 seconds. A length that cannot be counted in seconds is the largest
/// that can.
pub proof fn law_lengths_in_seconds(interval: IntervalKind, secs: u32)
    requires
        call_ensures(IntervalKind::as_seconds, (interval,), secs),
    ensures
        interval matches IntervalKind::InSecs(length) ==> secs == length,
        interval matches IntervalKind::InDays(days) ==> {
            &&& secs <= days * 86_400
            &&& secs < u32::MAX ==> secs == days * 86_400
            &&& days * 86_400 <= u32::MAX ==> secs == days * 86_400
        },
{
}

/// Logged days are positive and logged seconds are negative.
pub proof fn law_logged_intervals_have_a_sign(interval: IntervalKind, logged: i32)
    requires
        call_ensures(IntervalKind::as_revlog_interval, (interval,), logged),
    ensures
        interval matches IntervalKind::InSecs(secs) ==> {
            &&& same_low_bits(logged as int, -secs)
            &&& secs <= i32::MAX ==> logged == -secs
        },
        interval matches IntervalKind::InDays(days) ==> {
            &&& same_low_bits(logged as int, days as int)
            &&& days <= i32::MAX ==> logged == days
        },
{
}

/// With as many steps to go as there are, the first step is under way; with one less,
/// the second; and so on to the last. With more to go it is the first, and with none
/// the last. Only the lowest three digits count. Without steps there is no delay.
pub proof fn law_steps_are_counted_from_the_end(
    delays: Vec<u32>,
    remaining: u32,
    steps: LearningSteps<'_>,
    secs: u32,
)
    requires
        call_ensures(LearningSteps::new, (&delays,), steps),
        call_ensures(LearningSteps::current_delay_secs, (&steps, remaining), secs),
    ensures
        ({
            let to_go: int = (remaining % 1000) as int;
            let total: int = delays@.len() as int;
            &&& total == 0 ==> secs == 0
            &&& 1 <= to_go <= total ==> secs == delays@[total - to_go]
            &&& 0 < total < to_go ==> secs == delays@[0]
            &&& to_go == 0 && total > 0 ==> secs == delays@[total - 1]
        }),
{
}

} // verus!
