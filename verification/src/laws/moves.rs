//! What an answer does to a card, field by field.
//!
//! Each law holds in every deck. The state that an answer leads to can stand alone or be
//! wrapped by a rescheduling deck; what it puts on the card is the same.
use vstd::prelude::*;

use crate::applying::learning_queue;
use crate::card::{Card, CardQueue, CardType};
use crate::deck::LeechAction;
use crate::error::{AnkiError, InvalidInput};
use crate::ids::{DeckID, TimestampSecs};
use crate::interval::IntervalKind;
use crate::laws::numbers::{lemma_low_i32, low_i32, same_low_bits};
use crate::revlog::RevlogEntryPartial;
use crate::states::{
    CardState, FilteredState, LearnState, NewState, NormalState, PreviewState, RelearnState,
    ReschedulingFilterState, ReviewState,
};
use crate::updater::CardStateUpdater;

verus! {

/// What the log is told of an answer.
pub type Logged = Result<Option<RevlogEntryPartial>, AnkiError>;

/// Whether an answer in this state is only a look at the card.
pub open spec fn only_looks(current: CardState) -> bool {
    current matches CardState::Filtered(FilteredState::Preview(_))
}

/// Whether `next` is `target`, alone or in a rescheduling deck.
pub open spec fn leads_to(next: CardState, target: NormalState) -> bool {
    ||| next == CardState::Normal(target)
    ||| next == CardState::Filtered(
        FilteredState::Rescheduling(ReschedulingFilterState { original_state: target }),
    )
}

/// Whether `next` belongs to a filtered deck while the card is in none.
pub open spec fn out_of_place(card: Card, next: CardState) -> bool {
    next is Filtered && card.original_deck_id.0 == 0
}

/// Whether a state is marked as that of a leech.
pub open spec fn marked_as_leech(target: NormalState) -> bool {
    ||| target matches NormalState::Review(review) && review.leeched
    ||| target matches NormalState::Relearning(relearn) && relearn.review.leeched
}

/// Whether a card waits in the queue and until the time that `secs` from `clock` call
/// for: to the second if that is before the day ends, and to the day if it is not.
pub open spec fn waits_for_step(
    days_elapsed: u32,
    left: u32,
    clock: TimestampSecs,
    secs: u32,
    queue: CardQueue,
    due: i32,
) -> bool {
    if secs < left {
        &&& queue == CardQueue::Learn
        &&& same_low_bits(due as int, clock.0 + secs)
    } else {
        &&& queue == CardQueue::DayLearn
        &&& same_low_bits(due as int, days_elapsed + 1 + (secs - left) / 86_400)
    }
}

/// What a card that is made new is given, and what it keeps.
pub open spec fn made_new(before: Card, next: NewState, after: Card) -> bool {
    &&& after.ctype == CardType::New
    &&& after.queue == CardQueue::New
    &&& same_low_bits(after.due as int, next.position as int)
    &&& after.interval == before.interval
    &&& after.ease_factor == before.ease_factor
    &&& after.lapses == before.lapses
    &&& after.remaining_steps == before.remaining_steps
    &&& after.deck_id == before.deck_id
    &&& after.original_deck_id == before.original_deck_id
}

/// What a card that learns is given, apart from where it waits, and what it keeps.
pub open spec fn made_learning(before: Card, next: LearnState, after: Card) -> bool {
    &&& after.ctype == CardType::Learn
    &&& after.remaining_steps == next.remaining_steps
    &&& after.interval == before.interval
    &&& after.ease_factor == before.ease_factor
    &&& after.lapses == before.lapses
    &&& after.deck_id == before.deck_id
    &&& after.original_deck_id == before.original_deck_id
}

/// What a card that is scheduled for review is given, apart from its queue, and what it
/// keeps.
pub open spec fn made_review(
    before: Card,
    days_elapsed: u32,
    next: ReviewState,
    after: Card,
) -> bool {
    &&& after.ctype == CardType::Review
    &&& same_low_bits(after.due as int, days_elapsed + next.scheduled_days)
    &&& after.interval == next.scheduled_days
    &&& after.ease_factor == if next.ease_factor < 65_535 {
        next.ease_factor as int
    } else {
        65_535
    }
    &&& after.lapses == next.lapses
    &&& after.remaining_steps == before.remaining_steps
    &&& after.original_deck_id == DeckID(0)
    &&& before.original_deck_id.0 == 0 ==> after.deck_id == before.deck_id
    &&& before.original_deck_id.0 != 0 ==> after.deck_id == before.original_deck_id
}

/// What a forgotten card is given, apart from where it waits, and what it keeps.
pub open spec fn made_relearning(before: Card, next: RelearnState, after: Card) -> bool {
    &&& after.ctype == CardType::Relearn
    &&& after.interval == next.review.scheduled_days
    &&& after.remaining_steps == next.learning.remaining_steps
    &&& after.ease_factor == before.ease_factor
    &&& after.lapses == before.lapses
    &&& after.deck_id == before.deck_id
    &&& after.original_deck_id == before.original_deck_id
}

/// What a card in a preview is given, apart from its queue, and what it keeps.
pub open spec fn made_preview(
    before: Card,
    clock: TimestampSecs,
    next: PreviewState,
    after: Card,
) -> bool {
    &&& same_low_bits(after.due as int, clock.0 + next.scheduled_secs)
    &&& after.ctype == before.ctype
    &&& after.interval == before.interval
    &&& after.ease_factor == before.ease_factor
    &&& after.lapses == before.lapses
    &&& after.remaining_steps == before.remaining_steps
    &&& after.deck_id == before.deck_id
    &&& after.original_deck_id == before.original_deck_id
}

/// The queue and the due date that go with a step are those that it waits in and for.
proof fn lemma_waits_for_step(updater: CardStateUpdater, secs: u32, clock: TimestampSecs)
    ensures
        ({
            let interval = IntervalKind::InSecs(secs).at_rollover(updater.rollover());
            updater.interval_fits(interval, clock) ==> waits_for_step(
                updater.timing.days_elapsed,
                updater.rollover(),
                clock,
                secs,
                learning_queue(interval),
                updater.interval_due(interval, clock),
            )
        }),
{
}

/// Whatever the answer, nothing but the card changes, and it stays the same card of the
/// same note.
pub proof fn law_only_the_card_changes(
    updater: &mut CardStateUpdater,
    current: CardState,
    next: CardState,
    clock: TimestampSecs,
    logged: Logged,
)
    requires
        call_ensures(
            CardStateUpdater::apply_study_state,
            (updater, current, next, clock),
            logged,
        ),
    ensures
        final(updater).deck == old(updater).deck,
        final(updater).config == old(updater).config,
        final(updater).timing == old(updater).timing,
        final(updater).now == old(updater).now,
        final(updater).fuzz_seed == old(updater).fuzz_seed,
        final(updater).card.id == old(updater).card.id,
        final(updater).card.note_id == old(updater).card.note_id,
{
}

/// An answer is refused exactly if it leads to a state of a filtered deck that the card
/// is not in. It is then counted, and changes nothing else.
pub proof fn law_out_of_place_is_refused(
    updater: &mut CardStateUpdater,
    current: CardState,
    next: CardState,
    clock: TimestampSecs,
    logged: Logged,
)
    requires
        call_ensures(
            CardStateUpdater::apply_study_state,
            (updater, current, next, clock),
            logged,
        ),
    ensures
        logged is Err <==> out_of_place(old(updater).card, next),
        logged matches Err(error) ==> {
            &&& error == AnkiError::InvalidInput(InvalidInput::NotInFilteredDeck)
            &&& final(updater).card == (Card {
                reps: final(updater).card.reps,
                original_due: final(updater).card.original_due,
                ..old(updater).card
            })
        },
{
}

/// Whether a card is in a filtered deck is all that is asked of it before it is given a
/// state of one.
pub proof fn law_card_in_filtered_deck_passes(
    updater: CardStateUpdater,
    filtered: Result<(), AnkiError>,
)
    requires
        call_ensures(CardStateUpdater::ensure_filtered, (&updater,), filtered),
    ensures
        filtered is Ok <==> updater.card.original_deck_id.0 != 0,
        filtered matches Err(error) ==> error == AnkiError::InvalidInput(
            InvalidInput::NotInFilteredDeck,
        ),
{
}

/// A look counts for nothing and keeps the due date of the home deck, except that a card
/// that goes home needs it no more. Any other answer counts once, and once more for the
/// state inside a rescheduling deck, and clears that due date.
pub proof fn law_counts(
    updater: &mut CardStateUpdater,
    before: CardStateUpdater,
    current: CardState,
    next: CardState,
    clock: TimestampSecs,
    logged: Logged,
)
    requires
        *old(updater) == before,
        call_ensures(CardStateUpdater::can_apply, (&before, current, next, clock), true),
        call_ensures(
            CardStateUpdater::apply_study_state,
            (updater, current, next, clock),
            logged,
        ),
    ensures
        only_looks(current) ==> final(updater).card.reps == before.card.reps,
        only_looks(current) && (logged is Err || !(exists|review: ReviewState| #[trigger]
            leads_to(next, NormalState::Review(review)))) ==> final(updater).card.original_due
            == before.card.original_due,
        !only_looks(current) ==> {
            &&& final(updater).card.original_due == 0
            &&& logged is Ok && (next matches CardState::Filtered(FilteredState::Rescheduling(_)))
                ==> final(updater).card.reps == before.card.reps + 2
            &&& !(logged is Ok && (next matches CardState::Filtered(FilteredState::Rescheduling(_))))
                ==> final(updater).card.reps == before.card.reps + 1
        },
{
    if let CardState::Normal(NormalState::Review(review)) = next {
        assert(leads_to(next, NormalState::Review(review)));
    }
    if let CardState::Filtered(FilteredState::Rescheduling(rescheduling)) = next {
        if let NormalState::Review(review) = rescheduling.original_state {
            assert(leads_to(next, NormalState::Review(review)));
        }
    }
}

/// A card that is made new has the position for its due date and waits with the new
/// cards.
pub proof fn law_becoming_new(
    updater: &mut CardStateUpdater,
    current: CardState,
    next: CardState,
    new: NewState,
    clock: TimestampSecs,
    logged: Logged,
)
    requires
        leads_to(next, NormalState::New(new)),
        !out_of_place(old(updater).card, next),
        call_ensures(
            CardStateUpdater::apply_study_state,
            (updater, current, next, clock),
            logged,
        ),
    ensures
        made_new(old(updater).card, new, final(updater).card),
{
}

/// A card that learns keeps its interval, ease and lapses, takes the steps to go, and
/// waits for the delay of its step.
pub proof fn law_becoming_learning(
    updater: &mut CardStateUpdater,
    before: CardStateUpdater,
    current: CardState,
    next: CardState,
    learn: LearnState,
    clock: TimestampSecs,
    left: u32,
    logged: Logged,
)
    requires
        *old(updater) == before,
        leads_to(next, NormalState::Learning(learn)),
        !out_of_place(before.card, next),
        call_ensures(CardStateUpdater::can_apply, (&before, current, next, clock), true),
        call_ensures(CardStateUpdater::secs_until_rollover, (&before,), left),
        call_ensures(
            CardStateUpdater::apply_study_state,
            (updater, current, next, clock),
            logged,
        ),
    ensures
        made_learning(before.card, learn, final(updater).card),
        waits_for_step(
            before.timing.days_elapsed,
            left,
            clock,
            learn.scheduled_secs,
            final(updater).card.queue,
            final(updater).card.due,
        ),
{
    lemma_waits_for_step(before, learn.scheduled_secs, clock);
}

/// A card that is scheduled for review is due as many days from today as were scheduled,
/// which is its interval from then on; it takes ease and lapses, and is in its home
/// deck.
pub proof fn law_becoming_review(
    updater: &mut CardStateUpdater,
    current: CardState,
    next: CardState,
    review: ReviewState,
    clock: TimestampSecs,
    logged: Logged,
)
    requires
        leads_to(next, NormalState::Review(review)),
        !out_of_place(old(updater).card, next),
        call_ensures(
            CardStateUpdater::apply_study_state,
            (updater, current, next, clock),
            logged,
        ),
    ensures
        made_review(
            old(updater).card,
            old(updater).timing.days_elapsed,
            review,
            final(updater).card,
        ),
        final(updater).card.original_due == if only_looks(current)
            && old(updater).card.original_deck_id.0 == 0 {
            old(updater).card.original_due
        } else {
            0
        },
        final(updater).card.queue == if review.leeched
            && old(updater).config.inner.leech_action == LeechAction::Suspend {
            CardQueue::Suspended
        } else {
            CardQueue::Review
        },
{
}

/// A forgotten card has the interval of the review that it goes back to and the steps to
/// go of the relearning, in every deck; it keeps ease and lapses, and waits for the delay
/// of its step, unless it is a leech on hold.
pub proof fn law_becoming_relearning(
    updater: &mut CardStateUpdater,
    before: CardStateUpdater,
    current: CardState,
    next: CardState,
    relearn: RelearnState,
    clock: TimestampSecs,
    left: u32,
    logged: Logged,
)
    requires
        *old(updater) == before,
        leads_to(next, NormalState::Relearning(relearn)),
        !out_of_place(before.card, next),
        call_ensures(CardStateUpdater::can_apply, (&before, current, next, clock), true),
        call_ensures(CardStateUpdater::secs_until_rollover, (&before,), left),
        call_ensures(
            CardStateUpdater::apply_study_state,
            (updater, current, next, clock),
            logged,
        ),
    ensures
        made_relearning(before.card, relearn, final(updater).card),
        ({
            let on_hold = relearn.review.leeched && before.config.inner.leech_action
                == LeechAction::Suspend;
            let queue = if relearn.learning.scheduled_secs < left {
                CardQueue::Learn
            } else {
                CardQueue::DayLearn
            };
            &&& final(updater).card.queue == if on_hold {
                CardQueue::Suspended
            } else {
                queue
            }
            &&& waits_for_step(
                before.timing.days_elapsed,
                left,
                clock,
                relearn.learning.scheduled_secs,
                queue,
                final(updater).card.due,
            )
        }),
{
    lemma_waits_for_step(before, relearn.learning.scheduled_secs, clock);
}

/// A preview makes a card due after its delay, and leaves all else as it was, unless it
/// is a leech that is put on hold.
pub proof fn law_becoming_preview(
    updater: &mut CardStateUpdater,
    before: CardStateUpdater,
    current: CardState,
    preview: PreviewState,
    clock: TimestampSecs,
    logged: Logged,
)
    requires
        *old(updater) == before,
        before.card.original_deck_id.0 != 0,
        call_ensures(
            CardStateUpdater::can_apply,
            (&before, current, CardState::Filtered(FilteredState::Preview(preview)), clock),
            true,
        ),
        call_ensures(
            CardStateUpdater::apply_study_state,
            (updater, current, CardState::Filtered(FilteredState::Preview(preview)), clock),
            logged,
        ),
    ensures
        made_preview(before.card, clock, preview, final(updater).card),
        final(updater).card.queue == if marked_as_leech(preview.original_state)
            && before.config.inner.leech_action == LeechAction::Suspend {
            CardQueue::Suspended
        } else {
            CardQueue::PreviewRepeat
        },
{
}

/// What is logged of an answer that is not refused is what the change of state comes to
/// on that day, with the ease of the review that lies ahead or that is being relearnt,
/// and with none where there is no such review or the card stays in a preview.
pub proof fn law_answer_logs_change_of_state(
    updater: &mut CardStateUpdater,
    before: CardStateUpdater,
    current: CardState,
    next: CardState,
    clock: TimestampSecs,
    left: u32,
    logged: Logged,
    ease_factor: u32,
    partial: Option<RevlogEntryPartial>,
)
    requires
        *old(updater) == before,
        !out_of_place(before.card, next),
        next matches CardState::Filtered(FilteredState::Preview(_)) ==> ease_factor == 0,
        forall|target: NormalState| #[trigger]
            leads_to(next, target) ==> ease_factor == match target {
                NormalState::Review(review) => review.ease_factor,
                NormalState::Relearning(relearn) => relearn.review.ease_factor,
                _ => 0,
            },
        call_ensures(CardStateUpdater::secs_until_rollover, (&before,), left),
        call_ensures(
            RevlogEntryPartial::maybe_new,
            (current, next, ease_factor, left),
            partial,
        ),
        call_ensures(
            CardStateUpdater::apply_study_state,
            (updater, current, next, clock),
            logged,
        ),
    ensures
        logged == Ok::<_, AnkiError>(partial),
{
    match next {
        CardState::Normal(target) => {
            assert(leads_to(next, target));
        },
        CardState::Filtered(FilteredState::Rescheduling(rescheduling)) => {
            assert(leads_to(next, rescheduling.original_state));
        },
        _ => {},
    }
}

/// What a part of an answer leaves alone when it is taken alone: it does not count the
/// answer, and changes nothing but the card.
pub open spec fn not_counted(before: CardStateUpdater, after: CardStateUpdater) -> bool {
    &&& after == (CardStateUpdater { card: after.card, ..before })
    &&& after.card.id == before.card.id
    &&& after.card.note_id == before.card.note_id
    &&& after.card.reps == before.card.reps
}

/// To make a card new without counting an answer does to it, and logs, what a whole
/// answer does.
pub proof fn law_part_becoming_new(
    updater: &mut CardStateUpdater,
    before: CardStateUpdater,
    current: CardState,
    new: NewState,
    left: u32,
    logged: Logged,
    partial: Option<RevlogEntryPartial>,
)
    requires
        *old(updater) == before,
        call_ensures(CardStateUpdater::apply_new_state, (updater, current, new), logged),
        call_ensures(CardStateUpdater::secs_until_rollover, (&before,), left),
        call_ensures(
            RevlogEntryPartial::maybe_new,
            (current, CardState::Normal(NormalState::New(new)), 0, left),
            partial,
        ),
    ensures
        not_counted(before, *final(updater)),
        made_new(before.card, new, final(updater).card),
        final(updater).card.original_due == before.card.original_due,
        logged == Ok::<_, AnkiError>(partial),
{
}

/// To schedule a card for review without counting an answer does to it, and logs, what a
/// whole answer does, except that a leech is not put on hold.
pub proof fn law_part_becoming_review(
    updater: &mut CardStateUpdater,
    before: CardStateUpdater,
    current: CardState,
    review: ReviewState,
    left: u32,
    logged: Logged,
    partial: Option<RevlogEntryPartial>,
)
    requires
        *old(updater) == before,
        call_ensures(CardStateUpdater::apply_review_state, (updater, current, review), logged),
        call_ensures(CardStateUpdater::secs_until_rollover, (&before,), left),
        call_ensures(
            RevlogEntryPartial::maybe_new,
            (current, CardState::Normal(NormalState::Review(review)), review.ease_factor, left),
            partial,
        ),
    ensures
        not_counted(before, *final(updater)),
        made_review(before.card, before.timing.days_elapsed, review, final(updater).card),
        final(updater).card.queue == CardQueue::Review,
        final(updater).card.original_due == if before.card.original_deck_id.0 == 0 {
            before.card.original_due
        } else {
            0
        },
        logged == Ok::<_, AnkiError>(partial),
{
}

/// To put a card into a learning step without counting an answer does to it, and logs,
/// what a whole answer does.
pub proof fn law_part_becoming_learning(
    updater: &mut CardStateUpdater,
    before: CardStateUpdater,
    current: CardState,
    looking: CardState,
    learn: LearnState,
    clock: TimestampSecs,
    left: u32,
    logged: Logged,
    partial: Option<RevlogEntryPartial>,
)
    requires
        *old(updater) == before,
        only_looks(looking),
        call_ensures(
            CardStateUpdater::can_apply,
            (&before, looking, CardState::Normal(NormalState::Learning(learn)), clock),
            true,
        ),
        call_ensures(
            CardStateUpdater::apply_learning_state,
            (updater, current, learn, clock),
            logged,
        ),
        call_ensures(CardStateUpdater::secs_until_rollover, (&before,), left),
        call_ensures(
            RevlogEntryPartial::maybe_new,
            (current, CardState::Normal(NormalState::Learning(learn)), 0, left),
            partial,
        ),
    ensures
        not_counted(before, *final(updater)),
        made_learning(before.card, learn, final(updater).card),
        final(updater).card.original_due == before.card.original_due,
        waits_for_step(
            before.timing.days_elapsed,
            left,
            clock,
            learn.scheduled_secs,
            final(updater).card.queue,
            final(updater).card.due,
        ),
        logged == Ok::<_, AnkiError>(partial),
{
    lemma_waits_for_step(before, learn.scheduled_secs, clock);
}

/// To put a card into a relearning step without counting an answer does to it, and logs,
/// what a whole answer does, except that a leech is not put on hold.
pub proof fn law_part_becoming_relearning(
    updater: &mut CardStateUpdater,
    before: CardStateUpdater,
    current: CardState,
    looking: CardState,
    relearn: RelearnState,
    clock: TimestampSecs,
    left: u32,
    logged: Logged,
    partial: Option<RevlogEntryPartial>,
)
    requires
        *old(updater) == before,
        only_looks(looking),
        call_ensures(
            CardStateUpdater::can_apply,
            (&before, looking, CardState::Normal(NormalState::Relearning(relearn)), clock),
            true,
        ),
        call_ensures(
            CardStateUpdater::apply_relearning_state,
            (updater, current, relearn, clock),
            logged,
        ),
        call_ensures(CardStateUpdater::secs_until_rollover, (&before,), left),
        call_ensures(
            RevlogEntryPartial::maybe_new,
            (
                current,
                CardState::Normal(NormalState::Relearning(relearn)),
                relearn.review.ease_factor,
                left,
            ),
            partial,
        ),
    ensures
        not_counted(before, *final(updater)),
        made_relearning(before.card, relearn, final(updater).card),
        final(updater).card.original_due == before.card.original_due,
        waits_for_step(
            before.timing.days_elapsed,
            left,
            clock,
            relearn.learning.scheduled_secs,
            final(updater).card.queue,
            final(updater).card.due,
        ),
        logged == Ok::<_, AnkiError>(partial),
{
    lemma_waits_for_step(before, relearn.learning.scheduled_secs, clock);
}

/// To show a card in a preview again without counting an answer does to it, and logs,
/// what a whole answer does, except that a leech is not put on hold. A card that is in no
/// filtered deck is refused and stays as it is.
pub proof fn law_part_becoming_preview(
    updater: &mut CardStateUpdater,
    before: CardStateUpdater,
    current: CardState,
    looking: CardState,
    preview: PreviewState,
    clock: TimestampSecs,
    left: u32,
    logged: Logged,
    partial: Option<RevlogEntryPartial>,
)
    requires
        *old(updater) == before,
        only_looks(looking),
        call_ensures(
            CardStateUpdater::can_apply,
            (&before, looking, CardState::Filtered(FilteredState::Preview(preview)), clock),
            true,
        ),
        call_ensures(
            CardStateUpdater::apply_preview_state,
            (updater, current, preview, clock),
            logged,
        ),
        call_ensures(CardStateUpdater::secs_until_rollover, (&before,), left),
        call_ensures(
            RevlogEntryPartial::maybe_new,
            (current, CardState::Filtered(FilteredState::Preview(preview)), 0, left),
            partial,
        ),
    ensures
        before.card.original_deck_id.0 == 0 ==> {
            &&& *final(updater) == before
            &&& logged == Err::<Option<RevlogEntryPartial>, _>(
                AnkiError::InvalidInput(InvalidInput::NotInFilteredDeck),
            )
        },
        before.card.original_deck_id.0 != 0 ==> {
            &&& not_counted(before, *final(updater))
            &&& made_preview(before.card, clock, preview, final(updater).card)
            &&& final(updater).card.queue == CardQueue::PreviewRepeat
            &&& final(updater).card.original_due == before.card.original_due
            &&& logged == Ok::<_, AnkiError>(partial)
        },
{
}

/// A rescheduling deck gives a card the state that it wraps, just as an answer to it
/// outside of the deck would. A card that is in no filtered deck is refused and stays as
/// it is.
pub proof fn law_part_becoming_rescheduled(
    updater: &mut CardStateUpdater,
    outside: &mut CardStateUpdater,
    current: CardState,
    target: NormalState,
    clock: TimestampSecs,
    logged: Logged,
    logged_outside: Logged,
)
    requires
        *old(updater) == *old(outside),
        call_ensures(
            CardStateUpdater::apply_rescheduling_filter_state,
            (updater, current, ReschedulingFilterState { original_state: target }, clock),
            logged,
        ),
        call_ensures(
            CardStateUpdater::apply_study_state,
            (outside, current, CardState::Normal(target), clock),
            logged_outside,
        ),
    ensures
        old(updater).card.original_deck_id.0 == 0 ==> {
            &&& *final(updater) == *old(updater)
            &&& logged == Err::<Option<RevlogEntryPartial>, _>(
                AnkiError::InvalidInput(InvalidInput::NotInFilteredDeck),
            )
        },
        old(updater).card.original_deck_id.0 != 0 ==> {
            &&& *final(updater) == *final(outside)
            &&& logged == logged_outside
        },
{
}

/// Where an answer to a card in a preview can be given, so can the part of it that gives
/// the card its state, whatever the state that it was in.
pub proof fn law_parts_can_be_given(
    updater: &mut CardStateUpdater,
    before: CardStateUpdater,
    current: CardState,
    looking: CardState,
    next: CardState,
    clock: TimestampSecs,
)
    requires
        *old(updater) == before,
        only_looks(looking),
        call_ensures(CardStateUpdater::can_apply, (&before, looking, next, clock), true),
    ensures
        next matches CardState::Normal(NormalState::New(new)) ==> call_requires(
            CardStateUpdater::apply_new_state,
            (updater, current, new),
        ),
        next matches CardState::Normal(NormalState::Learning(learn)) ==> call_requires(
            CardStateUpdater::apply_learning_state,
            (updater, current, learn, clock),
        ),
        next matches CardState::Normal(NormalState::Review(review)) ==> call_requires(
            CardStateUpdater::apply_review_state,
            (updater, current, review),
        ),
        next matches CardState::Normal(NormalState::Relearning(relearn)) ==> call_requires(
            CardStateUpdater::apply_relearning_state,
            (updater, current, relearn, clock),
        ),
        next matches CardState::Filtered(FilteredState::Preview(preview)) ==> call_requires(
            CardStateUpdater::apply_preview_state,
            (updater, current, preview, clock),
        ),
        next matches CardState::Filtered(FilteredState::Rescheduling(rescheduling))
            ==> call_requires(
            CardStateUpdater::apply_rescheduling_filter_state,
            (updater, looking, rescheduling, clock),
        ),
{
}

/// Whether the step of `secs` from `clock` ends at a time, or on a day, that can be held.
pub open spec fn step_can_be_held(
    days_elapsed: u32,
    left: u32,
    clock: TimestampSecs,
    secs: u32,
) -> bool {
    if secs < left {
        -0x8000_0000 <= low_i32(clock.0 as int) + low_i32(secs as int) < 0x8000_0000
    } else {
        days_elapsed + 1 + (secs - left) / 86_400 <= u32::MAX
    }
}

/// An answer can be given exactly where the numbers that it puts on the card can be held:
/// the count of answers, the rest of the day, and the day or the time when the card is
/// due. A refused answer needs only the count.
pub proof fn law_answer_can_be_given(
    updater: &mut CardStateUpdater,
    before: CardStateUpdater,
    current: CardState,
    next: CardState,
    clock: TimestampSecs,
    left: u32,
    possible: bool,
)
    requires
        *old(updater) == before,
        call_ensures(CardStateUpdater::can_apply, (&before, current, next, clock), possible),
        call_ensures(CardStateUpdater::secs_until_rollover, (&before,), left),
    ensures
        ({
            let counted: int = if only_looks(current) {
                0
            } else if !out_of_place(before.card, next) && (next matches CardState::Filtered(
                FilteredState::Rescheduling(_),
            )) {
                2
            } else {
                1
            };
            let days = before.timing.days_elapsed;
            let day_can_be_held = i64::MIN <= before.timing.next_day_at - before.now.0 <= i64::MAX;
            possible <==> {
                &&& before.card.reps + counted <= u32::MAX
                &&& !out_of_place(before.card, next) ==> {
                    &&& day_can_be_held
                    &&& match next {
                        CardState::Filtered(FilteredState::Preview(preview)) => -0x8000_0000
                            <= low_i32(clock.0 as int) + low_i32(preview.scheduled_secs as int)
                            < 0x8000_0000,
                        CardState::Normal(target) | CardState::Filtered(
                            FilteredState::Rescheduling(
                                ReschedulingFilterState { original_state: target },
                            ),
                        ) => match target {
                            NormalState::New(_) => true,
                            NormalState::Learning(learn) => step_can_be_held(
                                days,
                                left,
                                clock,
                                learn.scheduled_secs,
                            ),
                            NormalState::Review(review) => days + review.scheduled_days <= u32::MAX,
                            NormalState::Relearning(relearn) => step_can_be_held(
                                days,
                                left,
                                clock,
                                relearn.learning.scheduled_secs,
                            ),
                        },
                    }
                }
            }
        }),
        possible ==> call_requires(
            CardStateUpdater::apply_study_state,
            (updater, current, next, clock),
        ),
        call_requires(CardStateUpdater::can_apply, (&before, current, next, clock)),
        call_requires(CardStateUpdater::ensure_filtered, (&before,)),
{
    lemma_low_i32(clock.0 as int, crate::num::wrap_i32(clock.0 as int) as int);
    match next {
        CardState::Filtered(FilteredState::Preview(preview)) => {
            let secs = preview.scheduled_secs as int;
            lemma_low_i32(secs, crate::num::wrap_i32(secs) as int);
        },
        CardState::Normal(target) | CardState::Filtered(
            FilteredState::Rescheduling(ReschedulingFilterState { original_state: target }),
        ) => {
            match target {
                NormalState::Learning(learn) => {
                    let secs = learn.scheduled_secs as int;
                    lemma_low_i32(secs, crate::num::wrap_i32(secs) as int);
                },
                NormalState::Relearning(relearn) => {
                    let secs = relearn.learning.scheduled_secs as int;
                    lemma_low_i32(secs, crate::num::wrap_i32(secs) as int);
                },
                _ => {},
            }
        },
    }
}

} // verus!
