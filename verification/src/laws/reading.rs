//! What the state of a card is read from.
use vstd::prelude::*;

use crate::card::{Card, CardType};
use crate::deck::{Deck, DeckKind};
use crate::ids::{DeckConfID, DeckID};
use crate::laws::numbers::same_low_bits;
use crate::states::{
    CardState, FilteredState, NewState, NextCardStates, NormalState, ReschedulingFilterState,
    StateContext,
};
use crate::steps::LearningSteps;
use crate::updater::CardStateUpdater;

verus! {

/// A deck is either filtered or has options.
pub proof fn law_deck_has_options_or_is_filtered(
    deck: Deck,
    filtered: bool,
    config_id: Option<DeckConfID>,
)
    requires
        call_ensures(Deck::is_filtered, (&deck,), filtered),
        call_ensures(Deck::config_id, (&deck,), config_id),
    ensures
        filtered <==> config_id is None,
        deck.kind is Filtered ==> filtered,
        deck.kind matches DeckKind::Normal(normal) ==> config_id == Some(normal.config_id),
{
}

/// Of the steps to go that a card holds, the thousands are those for today; what is left
/// is below a thousand. The ease is read as it is stored.
pub proof fn law_card_is_read_as_stored(card: Card, steps: u32, ease_factor: u32)
    requires
        call_ensures(Card::remaining_steps, (&card,), steps),
        call_ensures(Card::ease_factor, (&card,), ease_factor),
    ensures
        steps < 1000,
        steps <= card.remaining_steps,
        (card.remaining_steps - steps) % 1000 == 0,
        ease_factor == card.ease_factor,
{
}

/// A card that goes home is in its home deck and keeps nothing of the deck it was in; a
/// card that is at home stays as it is. Nothing else changes.
pub proof fn law_going_home(card: &mut Card)
    requires
        call_ensures(Card::remove_from_filtered_deck_before_reschedule, (card,), ()),
    ensures
        old(card).original_deck_id.0 == 0 ==> *final(card) == *old(card),
        old(card).original_deck_id.0 != 0 ==> *final(card) == (Card {
            deck_id: old(card).original_deck_id,
            original_deck_id: DeckID(0),
            original_due: 0,
            ..*old(card)
        }),
{
}

/// In a filtered deck a card of any kind is read with the due date of its home deck, if
/// one is kept, and with its own if not. The deck wraps what is read: for rescheduling,
/// or for a preview that lasts as many minutes as the deck says.
pub proof fn law_filtered_deck_reads_original_due(
    updater: CardStateUpdater,
    state: CardState,
    read: NormalState,
)
    requires
        updater.deck.kind is Filtered,
        call_ensures(CardStateUpdater::current_card_state, (&updater,), state),
        call_ensures(
            CardStateUpdater::normal_study_state,
            (
                &updater,
                if updater.card.original_due != 0 {
                    updater.card.original_due
                } else {
                    updater.card.due
                },
            ),
            read,
        ),
        updater.deck.kind->Filtered_0.reschedule || updater.deck.kind->Filtered_0.preview_delay * 60
            <= u32::MAX,
    ensures
        updater.deck.kind->Filtered_0.reschedule ==> state == CardState::Filtered(
            FilteredState::Rescheduling(ReschedulingFilterState { original_state: read }),
        ),
        !updater.deck.kind->Filtered_0.reschedule ==> {
            &&& state matches CardState::Filtered(FilteredState::Preview(preview))
            &&& preview.original_state == read
            &&& preview.scheduled_secs == 60 * updater.deck.kind->Filtered_0.preview_delay
        },
{
}

/// In a normal deck a card is read with its own due date, except that a review that is
/// due on a later day is read as if it were due today.
pub proof fn law_normal_deck_reads_due(
    updater: CardStateUpdater,
    state: CardState,
    today: i32,
    read: NormalState,
    read_today: NormalState,
)
    requires
        updater.deck.kind is Normal,
        same_low_bits(today as int, updater.timing.days_elapsed as int),
        call_ensures(CardStateUpdater::current_card_state, (&updater,), state),
        call_ensures(CardStateUpdater::normal_study_state, (&updater, updater.card.due), read),
        call_ensures(CardStateUpdater::normal_study_state, (&updater, today), read_today),
    ensures
        !(updater.card.ctype is Review) ==> state == CardState::Normal(read),
        updater.card.due <= today ==> state == CardState::Normal(read),
        updater.card.ctype is Review && updater.card.due > today ==> state == CardState::Normal(
            read_today,
        ),
{
}

/// A new card is read as its position, and one from before the first position as being
/// at the first.
pub proof fn law_new_card_is_read_as_its_position(
    updater: CardStateUpdater,
    due: i32,
    read: NormalState,
)
    requires
        updater.card.ctype == CardType::New,
        call_ensures(CardStateUpdater::normal_study_state, (&updater, due), read),
    ensures
        read matches NormalState::New(new) && (if due >= 0 {
            new.position == due
        } else {
            new.position == 0
        }),
{
}

/// A new card that is lent to a filtered deck keeps the position that it has at home.
pub proof fn law_lent_new_card_keeps_its_position(updater: CardStateUpdater, state: CardState)
    requires
        updater.deck.kind is Filtered,
        updater.card.ctype == CardType::New,
        updater.card.original_due > 0,
        call_ensures(CardStateUpdater::current_card_state, (&updater,), state),
    ensures
        match state {
            CardState::Normal(_) => false,
            CardState::Filtered(FilteredState::Preview(preview)) => preview.original_state
                == NormalState::New(NewState { position: updater.card.original_due as u32 }),
            CardState::Filtered(FilteredState::Rescheduling(rescheduling)) => {
                rescheduling.original_state == NormalState::New(
                    NewState { position: updater.card.original_due as u32 },
                )
            },
        },
{
}

/// What is read as the delay of a step, with `remaining` on the card: the delay of the
/// step that has as many steps from itself to the last as the card has to go.
pub open spec fn is_delay_of_step(secs: u32, delays: Seq<u32>, remaining: u32) -> bool {
    let to_go: int = (remaining % 1000) as int;
    let total: int = delays.len() as int;
    &&& total == 0 ==> secs == 0
    &&& 1 <= to_go <= total ==> secs == delays[total - to_go]
    &&& 0 < total < to_go ==> secs == delays[0]
    &&& to_go == 0 && total > 0 ==> secs == delays[total - 1]
}

/// A card in learning is read as its steps to go and the delay of the current step
/// among the learning steps. When it is due plays no part.
pub proof fn law_learning_card_is_read_as_its_step(
    updater: CardStateUpdater,
    due: i32,
    read: NormalState,
)
    requires
        updater.card.ctype == CardType::Learn,
        call_ensures(CardStateUpdater::normal_study_state, (&updater, due), read),
    ensures
        read matches NormalState::Learning(learn) && {
            &&& learn.remaining_steps == updater.card.remaining_steps % 1000
            &&& is_delay_of_step(
                learn.scheduled_secs,
                updater.config.inner.learn_steps@,
                updater.card.remaining_steps,
            )
        },
{
}

/// A forgotten card is read as its steps to go, the delay of the current step among the
/// relearning steps, and the review that it had, as if it were due.
pub proof fn law_relearning_card_is_read_as_step_and_review(
    updater: CardStateUpdater,
    due: i32,
    read: NormalState,
)
    requires
        updater.card.ctype == CardType::Relearn,
        call_ensures(CardStateUpdater::normal_study_state, (&updater, due), read),
    ensures
        read matches NormalState::Relearning(relearn) && {
            &&& relearn.learning.remaining_steps == updater.card.remaining_steps % 1000
            &&& is_delay_of_step(
                relearn.learning.scheduled_secs,
                updater.config.inner.relearn_steps@,
                updater.card.remaining_steps,
            )
            &&& relearn.review.scheduled_days == updater.card.interval
            &&& relearn.review.elapsed_days == updater.card.interval
            &&& relearn.review.ease_factor == updater.card.ease_factor
            &&& relearn.review.lapses == updater.card.lapses
            &&& !relearn.review.leeched
        },
{
}

/// A review card is read as its interval, ease and lapses, and the days that have passed:
/// its interval and the days since it was due, or, before it is due, its interval less
/// the days to go, and never less than none.
pub proof fn law_review_card_is_read_with_days_passed(
    updater: CardStateUpdater,
    due: i32,
    today: i32,
    interval: i32,
    read: NormalState,
)
    requires
        updater.card.ctype == CardType::Review,
        same_low_bits(today as int, updater.timing.days_elapsed as int),
        same_low_bits(interval as int, updater.card.interval as int),
        i32::MIN <= due - today <= i32::MAX,
        i32::MIN <= interval - (due - today) <= i32::MAX,
        call_ensures(CardStateUpdater::normal_study_state, (&updater, due), read),
    ensures
        read matches NormalState::Review(review) && {
            &&& review.scheduled_days == updater.card.interval
            &&& review.ease_factor == updater.card.ease_factor
            &&& review.lapses == updater.card.lapses
            &&& !review.leeched
            &&& interval + today >= due ==> review.elapsed_days == interval + today - due
            &&& interval + today < due ==> review.elapsed_days == 0
        },
{
}

/// The state of a card can be asked for exactly where the numbers in it can be held: the
/// days since a review, and the seconds of a preview.
pub proof fn law_state_can_be_asked(
    updater: CardStateUpdater,
    today: i32,
    interval: i32,
    known: bool,
)
    requires
        same_low_bits(today as int, updater.timing.days_elapsed as int),
        same_low_bits(interval as int, updater.card.interval as int),
        call_ensures(CardStateUpdater::has_card_state, (&updater,), known),
    ensures
        ({
            let due: int = match updater.deck.kind {
                DeckKind::Normal(_) => if updater.card.due <= today {
                    updater.card.due as int
                } else {
                    today as int
                },
                DeckKind::Filtered(_) => if updater.card.original_due != 0 {
                    updater.card.original_due as int
                } else {
                    updater.card.due as int
                },
            };
            known <==> {
                &&& updater.card.ctype == CardType::Review ==> i32::MIN <= due - today <= i32::MAX
                    && i32::MIN <= interval - (due - today) <= i32::MAX
                &&& updater.deck.kind matches DeckKind::Filtered(filtered) ==> filtered.reschedule
                    || filtered.preview_delay * 60 <= u32::MAX
            }
        }),
        known ==> call_requires(CardStateUpdater::current_card_state, (&updater,)),
        call_requires(CardStateUpdater::has_card_state, (&updater,)),
{
}

/// A card can be read with any due date that leaves the days since a review countable, and
/// any card that is no review with any due date.
pub proof fn law_card_can_be_read(
    updater: CardStateUpdater,
    due: i32,
    today: i32,
    interval: i32,
)
    requires
        same_low_bits(today as int, updater.timing.days_elapsed as int),
        same_low_bits(interval as int, updater.card.interval as int),
        updater.card.ctype == CardType::Review ==> i32::MIN <= due - today <= i32::MAX && i32::MIN
            <= interval - (due - today) <= i32::MAX,
    ensures
        call_requires(CardStateUpdater::normal_study_state, (&updater, due)),
{
}

/// A card that is lent to a filtered deck, with its due date kept, is read there as what
/// it is at home, unless it is a review that is due on a later day.
pub proof fn law_lent_card_is_read_as_at_home(
    home: CardStateUpdater,
    lent: CardStateUpdater,
    state_at_home: CardState,
    state_lent: CardState,
    today: i32,
)
    requires
        home.deck.kind is Normal,
        lent.deck.kind is Filtered,
        home.card.due != 0,
        lent.card == (Card {
            due: lent.card.due,
            queue: lent.card.queue,
            deck_id: lent.card.deck_id,
            original_due: home.card.due,
            original_deck_id: home.card.deck_id,
            ..home.card
        }),
        lent.config == home.config,
        lent.timing == home.timing,
        same_low_bits(today as int, home.timing.days_elapsed as int),
        home.card.ctype is Review ==> home.card.due <= today,
        call_ensures(CardStateUpdater::current_card_state, (&home,), state_at_home),
        call_ensures(CardStateUpdater::current_card_state, (&lent,), state_lent),
    ensures
        match state_lent {
            CardState::Normal(_) => false,
            CardState::Filtered(FilteredState::Preview(preview)) => state_at_home
                == CardState::Normal(preview.original_state),
            CardState::Filtered(FilteredState::Rescheduling(rescheduling)) => state_at_home
                == CardState::Normal(rescheduling.original_state),
        },
{
}

/// The time of day and the seed play no part in the state of a card.
pub proof fn law_state_is_the_same_all_day(
    one: CardStateUpdater,
    other: CardStateUpdater,
    state: CardState,
    same: CardState,
)
    requires
        one.card == other.card,
        one.deck.kind == other.deck.kind,
        one.config == other.config,
        one.timing.days_elapsed == other.timing.days_elapsed,
        call_ensures(CardStateUpdater::current_card_state, (&one,), state),
        call_ensures(CardStateUpdater::current_card_state, (&other,), same),
    ensures
        state == same,
{
}

/// The context holds the options as they are, the seed, and what the deck says of
/// previews.
pub proof fn law_context_holds_options(updater: CardStateUpdater, context: StateContext<'_>)
    requires
        call_ensures(CardStateUpdater::state_context, (&updater,), context),
    ensures
        context.fuzz_seed == updater.fuzz_seed,
        context.steps.steps@ == updater.config.inner.learn_steps@,
        context.relearn_steps.steps@ == updater.config.inner.relearn_steps@,
        context.graduating_interval_good == updater.config.inner.graduating_interval_good,
        context.graduating_interval_easy == updater.config.inner.graduating_interval_easy,
        context.hard_multiplier == updater.config.inner.hard_multiplier,
        context.easy_multiplier == updater.config.inner.easy_multiplier,
        context.interval_multiplier == updater.config.inner.interval_multiplier,
        context.lapse_multiplier == updater.config.inner.lapse_multiplier,
        context.maximum_review_interval == updater.config.inner.maximum_review_interval,
        context.minimum_lapse_interval == updater.config.inner.minimum_lapse_interval,
        context.leech_threshold == updater.config.inner.leech_threshold,
        updater.deck.kind is Normal ==> !context.in_filtered_deck && context.preview_step == 0,
        updater.deck.kind matches DeckKind::Filtered(filtered) ==> context.in_filtered_deck
            && context.preview_step == filtered.preview_delay,
{
}

/// The next states are worked out from the state that the card is in and from its
/// context.
pub proof fn law_next_states_follow_state_and_context<
    F: Fn(CardState, StateContext<'_>) -> NextCardStates,
>(
    updater: CardStateUpdater,
    next_states: F,
    state: CardState,
    context: StateContext<'_>,
    states: NextCardStates,
)
    requires
        call_ensures(CardStateUpdater::next_card_states::<F>, (&updater, next_states), states),
        call_ensures(CardStateUpdater::current_card_state, (&updater,), state),
        call_ensures(CardStateUpdater::state_context, (&updater,), context),
    ensures
        call_ensures(next_states, (state, context), states),
{
}

/// The next states can be worked out wherever the state of the card can be asked for, if
/// they can be for every state and context.
pub proof fn law_next_states_can_be_worked_out<
    F: Fn(CardState, StateContext<'_>) -> NextCardStates,
>(updater: CardStateUpdater, next_states: F)
    requires
        call_ensures(CardStateUpdater::has_card_state, (&updater,), true),
        forall|state: CardState, context: StateContext<'_>|
            call_requires(next_states, (state, context)),
    ensures
        call_requires(CardStateUpdater::next_card_states::<F>, (&updater, next_states)),
{
}

/// The steps and the card of an updater are its own.
pub proof fn law_updater_gives_what_it_holds(
    updater: CardStateUpdater,
    learn: LearningSteps<'_>,
    relearn: LearningSteps<'_>,
    card: Card,
)
    requires
        call_ensures(CardStateUpdater::learn_steps, (&updater,), learn),
        call_ensures(CardStateUpdater::relearn_steps, (&updater,), relearn),
        call_ensures(CardStateUpdater::into_card, (updater,), card),
    ensures
        learn.steps@ == updater.config.inner.learn_steps@,
        relearn.steps@ == updater.config.inner.relearn_steps@,
        card == updater.card,
{
}

} // verus!
