use anki::interval::IntervalKind;
use anki::num::{i64_to_i32, i64_to_u32, i64_to_u64, u32_to_i32, u32_to_u16};
use anki::steps::LearningSteps;
use anki::timing::SchedTimingToday;
use anki::ids::TimestampSecs;

#[test]
fn seconds_before_rollover_stay_seconds() {
    let interval = IntervalKind::InSecs(599).maybe_as_days(600);
    assert_eq!(interval, IntervalKind::InSecs(599));
}

#[test]
fn seconds_after_rollover_become_days() {
    assert_eq!(IntervalKind::InSecs(600).maybe_as_days(600), IntervalKind::InDays(1));
    assert_eq!(IntervalKind::InSecs(86_999).maybe_as_days(600), IntervalKind::InDays(1));
    assert_eq!(IntervalKind::InSecs(87_000).maybe_as_days(600), IntervalKind::InDays(2));
    assert_eq!(IntervalKind::InSecs(0).maybe_as_days(0), IntervalKind::InDays(1));
}

#[test]
fn days_stay_days() {
    assert_eq!(IntervalKind::InDays(3).maybe_as_days(0), IntervalKind::InDays(3));
}

#[test]
fn counting_in_days_again_changes_nothing() {
    for secs in [0, 599, 600, 90_000, u32::MAX] {
        let once = IntervalKind::InSecs(secs).maybe_as_days(600);
        assert_eq!(once.maybe_as_days(600), once);
    }
}

#[test]
fn lengths_in_seconds() {
    assert_eq!(IntervalKind::InSecs(75).as_seconds(), 75);
    assert_eq!(IntervalKind::InDays(4).as_seconds(), 345_600);
    assert_eq!(IntervalKind::InDays(49_710).as_seconds(), 4_294_944_000);
    assert_eq!(IntervalKind::InDays(49_711).as_seconds(), u32::MAX);
}

#[test]
fn logged_intervals_have_a_sign() {
    assert_eq!(IntervalKind::InDays(12).as_revlog_interval(), 12);
    assert_eq!(IntervalKind::InSecs(600).as_revlog_interval(), -600);
    assert_eq!(IntervalKind::InSecs(0).as_revlog_interval(), 0);
    assert_eq!(IntervalKind::InSecs(0x8000_0000).as_revlog_interval(), i32::MIN);
}

#[test]
fn delay_of_the_current_step() {
    let delays = vec![60, 600, 3_600];
    let steps = LearningSteps::new(&delays);
    assert_eq!(steps.current_delay_secs(3), 60);
    assert_eq!(steps.current_delay_secs(2), 600);
    assert_eq!(steps.current_delay_secs(1), 3_600);
    assert_eq!(steps.current_delay_secs(0), 3_600);
    assert_eq!(steps.current_delay_secs(9), 60);
    assert_eq!(steps.current_delay_secs(2_002), 600);
}

#[test]
fn no_steps_have_no_delay() {
    let delays = vec![];
    assert_eq!(LearningSteps::new(&delays).current_delay_secs(1), 0);
}

#[test]
fn seconds_until_the_next_day() {
    let timing = SchedTimingToday { days_elapsed: 1, next_day_at: 10_000 };
    assert_eq!(timing.secs_until_rollover(TimestampSecs(4_000)), 6_000);
    assert_eq!(timing.secs_until_rollover(TimestampSecs(10_000)), 0);
    assert_eq!(timing.secs_until_rollover(TimestampSecs(12_000)), 0);
    assert_eq!(timing.secs_until_rollover(TimestampSecs(10_000 - 0x1_0000_0007)), 7);
}

#[test]
fn rollover_that_cannot_be_held() {
    let timing = SchedTimingToday { days_elapsed: 1, next_day_at: i64::MAX };
    assert!(timing.has_rollover(TimestampSecs(0)));
    assert!(!timing.has_rollover(TimestampSecs(-1)));
}

#[test]
fn conversions_keep_the_low_bits() {
    assert_eq!(u32_to_i32(0x8000_0001), -0x7fff_ffff);
    assert_eq!(u32_to_i32(7), 7);
    assert_eq!(i64_to_i32(0x1_8000_0000), i32::MIN);
    assert_eq!(i64_to_u32(-1), u32::MAX);
    assert_eq!(i64_to_u64(-2), u64::MAX - 1);
    assert_eq!(u32_to_u16(65_536), 65_535);
    assert_eq!(u32_to_u16(2_500), 2_500);
}
