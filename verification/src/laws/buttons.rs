//! What the buttons show.
use vstd::prelude::*;

use crate::answering::Rating;
use crate::collection::Collection;
use crate::error::AnkiError;
use crate::ids::TimestampSecs;
use crate::interval::IntervalKind;
use crate::laws::moves::Logged;
use crate::laws::numbers::same_low_bits;
use crate::states::{CardState, FilteredState, NextCardStates, PreviewState};
use crate::timing::SchedTimingToday;
use crate::updater::CardStateUpdater;

verus! {

/// Whether `state` is the one that the button for `rating` leads to.
pub open spec fn is_choice(choices: NextCardStates, rating: Rating, state: CardState) -> bool {
    match rating {
        Rating::Again => state == choices.again,
        Rating::Hard => state == choices.hard,
        Rating::Good => state == choices.good,
        Rating::Easy => state == choices.easy,
    }
}

/// Each button, in the order of their numbers, is described from the time after which the
/// state that it leads to comes back, as it counts at the end of the day.
pub proof fn law_buttons_describe_their_states<F: Fn(u32, u32) -> String>(
    col: Collection,
    choices: NextCardStates,
    now: TimestampSecs,
    timing: SchedTimingToday,
    describe: F,
    described: Result<Vec<String>, AnkiError>,
    rating: Rating,
    number: u8,
    state: CardState,
    left: u32,
    interval: IntervalKind,
    counted: IntervalKind,
    secs: u32,
)
    requires
        call_ensures(
            Collection::describe_next_states::<F>,
            (&col, choices, now, Ok(timing), describe),
            described,
        ),
        is_choice(choices, rating, state),
        call_ensures(Rating::as_number, (rating,), number),
        call_ensures(SchedTimingToday::secs_until_rollover, (&timing, now), left),
        call_ensures(CardState::interval_kind, (state,), interval),
        call_ensures(IntervalKind::maybe_as_days, (interval, left), counted),
        call_ensures(IntervalKind::as_seconds, (counted,), secs),
    ensures
        described matches Ok(texts) && texts@.len() == 4 && call_ensures(
            describe,
            (secs, col.learn_ahead_secs),
            texts@[number - 1],
        ),
{
}

/// The button that leads to a preview is described from the delay of that preview, as it
/// counts at the end of the day. It is the delay after which the card is due once the
/// answer has been given.
pub proof fn law_preview_button_shows_the_delay<F: Fn(u32, u32) -> String>(
    moved: &mut CardStateUpdater,
    col: Collection,
    choices: NextCardStates,
    updater: CardStateUpdater,
    describe: F,
    described: Result<Vec<String>, AnkiError>,
    rating: Rating,
    number: u8,
    preview: PreviewState,
    current: CardState,
    clock: TimestampSecs,
    logged: Logged,
    left: u32,
    counted: IntervalKind,
    secs: u32,
)
    requires
        *old(moved) == updater,
        updater.card.original_deck_id.0 != 0,
        is_choice(choices, rating, CardState::Filtered(FilteredState::Preview(preview))),
        call_ensures(
            Collection::describe_next_states::<F>,
            (&col, choices, updater.now, Ok(updater.timing), describe),
            described,
        ),
        call_ensures(Rating::as_number, (rating,), number),
        call_ensures(CardStateUpdater::secs_until_rollover, (&updater,), left),
        call_ensures(
            IntervalKind::maybe_as_days,
            (IntervalKind::InSecs(preview.scheduled_secs), left),
            counted,
        ),
        call_ensures(IntervalKind::as_seconds, (counted,), secs),
        call_ensures(
            CardStateUpdater::can_apply,
            (&updater, current, CardState::Filtered(FilteredState::Preview(preview)), clock),
            true,
        ),
        call_ensures(
            CardStateUpdater::apply_study_state,
            (moved, current, CardState::Filtered(FilteredState::Preview(preview)), clock),
            logged,
        ),
    ensures
        described matches Ok(texts) && texts@.len() == 4 && call_ensures(
            describe,
            (secs, col.learn_ahead_secs),
            texts@[number - 1],
        ),
        same_low_bits(final(moved).card.due as int, clock.0 + preview.scheduled_secs),
        preview.scheduled_secs < left ==> same_low_bits(
            final(moved).card.due as int,
            clock.0 + secs,
        ),
{
}

/// Without a day there are no descriptions, and the reason is handed on.
pub proof fn law_no_buttons_without_a_day<F: Fn(u32, u32) -> String>(
    col: Collection,
    choices: NextCardStates,
    now: TimestampSecs,
    error: AnkiError,
    describe: F,
    described: Result<Vec<String>, AnkiError>,
)
    requires
        call_ensures(
            Collection::describe_next_states::<F>,
            (&col, choices, now, Err(error), describe),
            described,
        ),
    ensures
        described == Err::<Vec<String>, _>(error),
{
}

/// The buttons can be described if the rest of the day is known and any number of seconds
/// can be put into words.
pub proof fn law_buttons_can_be_described<F: Fn(u32, u32) -> String>(
    col: Collection,
    choices: NextCardStates,
    now: TimestampSecs,
    timing: Result<SchedTimingToday, AnkiError>,
    describe: F,
)
    requires
        timing matches Ok(timing) ==> call_ensures(
            SchedTimingToday::has_rollover,
            (&timing, now),
            true,
        ),
        forall|secs: u32| call_requires(describe, (secs, col.learn_ahead_secs)),
    ensures
        call_requires(
            Collection::describe_next_states::<F>,
            (&col, choices, now, timing, describe),
        ),
{
}

} // verus!
