//! What an answer does to a card, whatever the answer.
use vstd::prelude::*;

use crate::answering::{fuzz_seed, Rating};
use crate::card::{Card, CardQueue};
use crate::collection::Collection;
use crate::deck::DeckKind;
use crate::ids::TimestampSecs;
use crate::interval::IntervalKind;
use crate::num::clamp_u16;
use crate::revlog::RevlogReviewKind;
use crate::states::{
    CardState, LearnState, NormalState, RelearnState, ReviewState,
};
use crate::steps::step_delay;
use crate::updater::CardStateUpdater;

verus! {

/// A normal deck shows the state that a card has by itself; a filtered deck wraps that
/// state, for rescheduling or for a preview.
pub proof fn law_deck_decides_kind_of_state(updater: CardStateUpdater)
    ensures
        updater.deck.kind is Normal <==> updater.state() is Normal,
        updater.deck.kind matches DeckKind::Filtered(filtered) ==> {
            &&& filtered.reschedule <==> updater.state().is_rescheduling()
            &&& !filtered.reschedule <==> updater.state().is_preview()
        },
        updater.state().underlying() == updater.study_state(updater.study_due()),
{
}

/// In a normal deck no review is early: at least as many days have passed as were
/// scheduled.
pub proof fn law_normal_deck_reviews_are_never_early(updater: CardStateUpdater)
    requires
        updater.deck.kind is Normal,
        updater.state_fits(),
        updater.card.ctype is Review ==> updater.card.interval <= i32::MAX,
    ensures
        updater.state().underlying() matches NormalState::Review(review) ==> review.elapsed_days
            >= review.scheduled_days,
        updater.state().log_kind() != Some(RevlogReviewKind::EarlyReview),
{
}

/// A card that is read from storage is not a leech; only an answer makes it one.
pub proof fn law_state_of_a_card_is_no_leech(updater: CardStateUpdater)
    ensures
        !updater.state().is_leech(),
{
}

/// An answer leaves a card the same card, of the same note.
pub proof fn law_answer_keeps_identity(
    updater: CardStateUpdater,
    current: CardState,
    next: CardState,
    clock: TimestampSecs,
)
    ensures
        updater.studied(current, next, clock).id == updater.card.id,
        updater.studied(current, next, clock).note_id == updater.card.note_id,
{
}

/// Looking at a card is not counted. Any other answer is counted once, and one that
/// leads to a state of a rescheduling deck once more.
pub proof fn law_answers_are_counted(
    updater: CardStateUpdater,
    current: CardState,
    next: CardState,
    clock: TimestampSecs,
)
    requires
        updater.study_fits(current, next, clock),
    ensures
        updater.studied(current, next, clock).reps == updater.card.reps + (if current.is_preview() {
            0int
        } else if !updater.refuses(next) && next.is_rescheduling() {
            2
        } else {
            1
        }),
{
}

/// Any answer but one in a preview clears the due date that was kept from the home
/// deck.
pub proof fn law_answer_clears_original_due(
    updater: CardStateUpdater,
    current: CardState,
    next: CardState,
    clock: TimestampSecs,
)
    requires
        !current.is_preview(),
    ensures
        updater.studied(current, next, clock).original_due == 0,
{
}

/// A card goes back to its home deck when it is scheduled for review, and stays where
/// it is otherwise.
pub proof fn law_only_reviews_go_home(
    updater: CardStateUpdater,
    current: CardState,
    next: CardState,
    clock: TimestampSecs,
)
    ensures
        ({
            let before = updater.card;
            let after = updater.studied(current, next, clock);
            if !updater.refuses(next) && !next.is_preview() && next.underlying() is Review {
                &&& after.original_deck_id.0 == 0
                &&& after.deck_id == if before.original_deck_id.0 == 0 {
                    before.deck_id
                } else {
                    before.original_deck_id
                }
            } else {
                &&& after.original_deck_id == before.original_deck_id
                &&& after.deck_id == before.deck_id
            }
        }),
{
}

/// An answer that is not refused leaves a card suspended if it makes the card a leech
/// and the options say so, and in no other case.
pub proof fn law_leeches_are_suspended(
    updater: CardStateUpdater,
    current: CardState,
    next: CardState,
    clock: TimestampSecs,
)
    requires
        !updater.refuses(next),
    ensures
        updater.studied(current, next, clock).queue == CardQueue::Suspended <==> next.is_leech()
            && updater.config.inner.leech_action is Suspend,
{
}

/// A preview that goes on changes nothing of a card but where it waits and until when.
pub proof fn law_preview_keeps_card(
    updater: CardStateUpdater,
    current: CardState,
    next: CardState,
    clock: TimestampSecs,
)
    requires
        current.is_preview(),
        next.is_preview(),
    ensures
        ({
            let after = updater.studied(current, next, clock);
            after == (Card { queue: after.queue, due: after.due, ..updater.card })
        }),
{
}

/// A refused answer changes nothing but the counts, and is refused only where it would
/// lead a card that is not in a filtered deck into one.
pub proof fn law_refusal(
    updater: CardStateUpdater,
    current: CardState,
    next: CardState,
    clock: TimestampSecs,
)
    ensures
        updater.study_log(current, next) is Err <==> next is Filtered
            && updater.card.original_deck_id.0 == 0,
        updater.study_log(current, next) is Err ==> ({
            let after = updater.studied(current, next, clock);
            after == (Card {
                reps: after.reps,
                original_due: after.original_due,
                ..updater.card
            })
        }),
{
}

/// Every answer that is not refused is logged, unless the card was only looked at.
pub proof fn law_answers_are_logged(
    updater: CardStateUpdater,
    current: CardState,
    next: CardState,
)
    requires
        !updater.refuses(next),
    ensures
        updater.study_log(current, next) matches Ok(logged) && (logged is None
            <==> current.is_preview()),
{
}

/// A card is due when the interval that is logged for it has passed: at a point in time
/// if that is counted in seconds, on a day if it is counted in days.
pub proof fn law_due_follows_logged_interval(
    updater: CardStateUpdater,
    current: CardState,
    next: CardState,
    clock: TimestampSecs,
)
    requires
        !next.is_preview(),
        !(next.underlying() is New),
    ensures
        updater.study_log(current, next) matches Ok(Some(logged)) ==> updater.studied(
            current,
            next,
            clock,
        ).due == updater.interval_due(logged.interval, clock),
{
}

/// A button shows the length of the interval that is logged when it is pressed, if the
/// day has as long to go when the answer is given as when the button was labelled.
pub proof fn law_button_shows_what_is_logged(
    updater: CardStateUpdater,
    current: CardState,
    next: CardState,
)
    ensures
        updater.study_log(current, next) matches Ok(Some(logged)) ==> Collection::button_secs(
            next,
            updater.rollover(),
        ) == logged.interval.seconds(),
{
}

/// What a card in a normal deck was given is what it is read back as on the same day.
/// The position or the day must be one that a due date can hold. The steps to go keep their
/// lowest three digits, delays follow the options, a review counts as due today, and a
/// relearnt card keeps the ease and the lapses that it had.
pub proof fn law_state_is_read_back(
    updater: CardStateUpdater,
    current: CardState,
    next: NormalState,
    clock: TimestampSecs,
)
    requires
        updater.deck.kind is Normal,
        updater.study_fits(current, CardState::Normal(next), clock),
        next matches NormalState::New(new) ==> new.position <= i32::MAX,
        next matches NormalState::Review(review) ==> review.scheduled_days <= i32::MAX
            && updater.interval_due(IntervalKind::InDays(review.scheduled_days), clock)
            >= updater.today(),
    ensures
        ({
            let after = updater.with_card(
                updater.studied(current, CardState::Normal(next), clock),
            );
            let options = updater.config.inner;
            &&& after.state_fits()
            &&& after.state() == CardState::Normal(
                match next {
                    NormalState::New(new) => NormalState::New(new),
                    NormalState::Learning(learn) => NormalState::Learning(
                        LearnState {
                            remaining_steps: (learn.remaining_steps % 1000) as u32,
                            scheduled_secs: step_delay(
                                options.learn_steps@,
                                learn.remaining_steps,
                            ),
                        },
                    ),
                    NormalState::Review(review) => NormalState::Review(
                        ReviewState {
                            elapsed_days: review.scheduled_days,
                            ease_factor: clamp_u16(review.ease_factor) as u32,
                            leeched: false,
                            ..review
                        },
                    ),
                    NormalState::Relearning(relearn) => NormalState::Relearning(
                        RelearnState {
                            learning: LearnState {
                                remaining_steps: (relearn.learning.remaining_steps % 1000) as u32,
                                scheduled_secs: step_delay(
                                    options.relearn_steps@,
                                    relearn.learning.remaining_steps,
                                ),
                            },
                            review: ReviewState {
                                scheduled_days: relearn.review.scheduled_days,
                                elapsed_days: relearn.review.scheduled_days,
                                ease_factor: updater.card.ease_factor as u32,
                                lapses: updater.card.lapses,
                                leeched: false,
                            },
                        },
                    ),
                },
            )
        }),
{
}

/// A card has the same seed as long as it is the same card with the same number of
/// answers. While testing there is no seed.
pub proof fn law_seed_follows_id_and_reps(one: Card, other: Card, testing: bool)
    requires
        one.id == other.id,
        one.reps == other.reps,
    ensures
        fuzz_seed(one.id, one.reps, testing) == fuzz_seed(other.id, other.reps, testing),
        fuzz_seed(one.id, one.reps, testing) is None <==> testing,
{
}

/// No two buttons have the same number.
pub proof fn law_ratings_have_their_own_numbers(one: Rating, other: Rating)
    ensures
        one.number() == other.number() <==> one == other,
        1 <= one.number() <= 4,
{
}

/// What is counted in seconds ends before the day does, and counting again changes
/// nothing.
pub proof fn law_seconds_end_today(interval: IntervalKind, secs_until_rollover: u32)
    ensures
        ({
            let counted = interval.at_rollover(secs_until_rollover);
            &&& counted matches IntervalKind::InSecs(secs) ==> secs < secs_until_rollover
            &&& counted.at_rollover(secs_until_rollover) == counted
        }),
{
}

} // verus!
