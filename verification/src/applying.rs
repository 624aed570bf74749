//! Moving a card to another state.
use vstd::prelude::*;

use crate::card::{Card, CardQueue, CardType};
use crate::deck::LeechAction;
use crate::error::{AnkiError, InvalidInput};
use crate::ids::TimestampSecs;
use crate::interval::IntervalKind;
use crate::num::{clamp_u16, i64_to_i32, u32_to_i32, u32_to_u16, wrap_i32};
use crate::revlog::RevlogEntryPartial;
use crate::states::{
    CardState, FilteredState, LearnState, NewState, NormalState, PreviewState, RelearnState,
    ReschedulingFilterState, ReviewState,
};
use crate::updater::{fits_i32, fits_u32, CardStateUpdater};

verus! {

/// Why an answer that leads into a filtered deck is refused.
pub open spec fn not_in_filtered_deck() -> AnkiError {
    AnkiError::InvalidInput(InvalidInput::NotInFilteredDeck)
}

/// A card that has been answered once more in the state `current`. Looking at a card
/// does not count.
pub open spec fn counted(card: Card, current: CardState) -> Card {
    if current.is_preview() {
        card
    } else {
        Card { reps: (card.reps + 1) as u32, original_due: 0, ..card }
    }
}

/// How easy a card in the state `next` is, as it is logged.
pub open spec fn logged_ease(next: CardState) -> u32 {
    if next.is_preview() {
        0
    } else {
        match next.underlying() {
            NormalState::Review(review) => review.ease_factor,
            NormalState::Relearning(relearn) => relearn.review.ease_factor,
            _ => 0,
        }
    }
}

/// The queue of a card that is learnt and comes back after `interval`.
pub open spec fn learning_queue(interval: IntervalKind) -> CardQueue {
    match interval {
        IntervalKind::InSecs(_) => CardQueue::Learn,
        IntervalKind::InDays(_) => CardQueue::DayLearn,
    }
}

impl CardStateUpdater {
    /// The same with another card.
    pub open spec fn with_card(self, card: Card) -> CardStateUpdater {
        CardStateUpdater { card, ..self }
    }

    /// Whether the time or the day after `interval` is a number that can be held.
    pub open spec fn interval_fits(self, interval: IntervalKind, clock: TimestampSecs) -> bool {
        match interval {
            IntervalKind::InSecs(secs) => fits_i32(
                wrap_i32(clock.0 as int) + wrap_i32(secs as int),
            ),
            IntervalKind::InDays(days) => fits_u32(self.timing.days_elapsed + days),
        }
    }

    /// When a card is due that comes back after `interval`: a point in time for
    /// seconds, a day for days.
    pub open spec fn interval_due(self, interval: IntervalKind, clock: TimestampSecs) -> i32 {
        match interval {
            IntervalKind::InSecs(secs) => (wrap_i32(clock.0 as int) + wrap_i32(
                secs as int,
            )) as i32,
            IntervalKind::InDays(days) => wrap_i32(self.timing.days_elapsed + days),
        }
    }

    /// Whether the numbers that `next` puts on a card can be held.
    pub open spec fn placing_fits(self, next: NormalState, clock: TimestampSecs) -> bool {
        &&& self.timing.rollover_fits(self.now)
        &&& next is New || self.interval_fits(next.interval().at_rollover(self.rollover()), clock)
    }

    /// The card in the state `next`.
    pub open spec fn placed(self, card: Card, next: NormalState, clock: TimestampSecs) -> Card {
        let interval = next.interval().at_rollover(self.rollover());
        match next {
            NormalState::New(new) => Card {
                ctype: CardType::New,
                queue: CardQueue::New,
                due: wrap_i32(new.position as int),
                ..card
            },
            NormalState::Learning(learn) => Card {
                ctype: CardType::Learn,
                queue: learning_queue(interval),
                due: self.interval_due(interval, clock),
                remaining_steps: learn.remaining_steps,
                ..card
            },
            NormalState::Review(review) => Card {
                ctype: CardType::Review,
                queue: CardQueue::Review,
                due: self.interval_due(interval, clock),
                interval: review.scheduled_days,
                ease_factor: clamp_u16(review.ease_factor),
                lapses: review.lapses,
                ..card.sent_home()
            },
            NormalState::Relearning(relearn) => Card {
                ctype: CardType::Relearn,
                queue: learning_queue(interval),
                due: self.interval_due(interval, clock),
                interval: relearn.review.scheduled_days,
                remaining_steps: relearn.learning.remaining_steps,
                ..card
            },
        }
    }

    /// The card on hold, if `next` makes it a leech and leeches are suspended.
    pub open spec fn held_back(self, card: Card, next: CardState) -> Card {
        if next.is_leech() && self.config.inner.leech_action is Suspend {
            Card { queue: CardQueue::Suspended, ..card }
        } else {
            card
        }
    }

    /// The card after an answer in the state `current` that leads to `next`.
    pub open spec fn answered(
        self,
        card: Card,
        current: CardState,
        next: NormalState,
        clock: TimestampSecs,
    ) -> Card {
        self.held_back(
            self.placed(counted(card, current), next, clock),
            CardState::Normal(next),
        )
    }

    /// Whether the numbers that `next` puts on the card can be held.
    pub open spec fn study_fits(
        self,
        current: CardState,
        next: CardState,
        clock: TimestampSecs,
    ) -> bool {
        let counts = !current.is_preview();
        &&& counts ==> fits_u32(self.card.reps + 1)
        &&& !self.refuses(next) ==> match next {
            CardState::Normal(normal) => self.placing_fits(normal, clock),
            CardState::Filtered(FilteredState::Preview(preview)) => {
                &&& self.timing.rollover_fits(self.now)
                &&& self.interval_fits(IntervalKind::InSecs(preview.scheduled_secs), clock)
            },
            CardState::Filtered(FilteredState::Rescheduling(rescheduling)) => {
                &&& counts ==> fits_u32(self.card.reps + 2)
                &&& self.placing_fits(rescheduling.original_state, clock)
            },
        }
    }

    /// Whether `next` is refused: only a card that is in a filtered deck can be given a
    /// state that belongs to one.
    pub open spec fn refuses(self, next: CardState) -> bool {
        next is Filtered && self.card.original_deck_id.0 == 0
    }

    /// The card after an answer in the state `current` that leads to `next`. A state of
    /// a rescheduling deck counts the answer once for the deck and once for the state
    /// that it wraps. A refused answer has been counted, and no more.
    pub open spec fn studied(
        self,
        current: CardState,
        next: CardState,
        clock: TimestampSecs,
    ) -> Card {
        let card = counted(self.card, current);
        match next {
            CardState::Normal(normal) => self.answered(self.card, current, normal, clock),
            CardState::Filtered(filtered) => if self.refuses(next) {
                card
            } else {
                match filtered {
                    FilteredState::Preview(preview) => self.held_back(
                        Card {
                            queue: CardQueue::PreviewRepeat,
                            due: self.interval_due(
                                IntervalKind::InSecs(preview.scheduled_secs),
                                clock,
                            ),
                            ..card
                        },
                        next,
                    ),
                    FilteredState::Rescheduling(rescheduling) => self.answered(
                        card,
                        current,
                        rescheduling.original_state,
                        clock,
                    ),
                }
            },
        }
    }

    /// What is logged of an answer in the state `current` that leads to `next`, or why
    /// it is refused.
    pub open spec fn study_log(
        self,
        current: CardState,
        next: CardState,
    ) -> Result<Option<RevlogEntryPartial>, AnkiError> {
        if self.refuses(next) {
            Err(not_in_filtered_deck())
        } else {
            Ok(RevlogEntryPartial::of_change(current, next, logged_ease(next), self.rollover()))
        }
    }

    /// Whether [`CardStateUpdater::apply_study_state`] can be worked out.
    pub fn can_apply(&self, current: CardState, next: CardState, clock: TimestampSecs) -> (fits:
        bool)
        ensures
            fits == self.study_fits(current, next, clock),
    {
        let counts: bool = !matches!(current, CardState::Filtered(FilteredState::Preview(_)));
        if counts && self.card.reps == u32::MAX {
            return false;
        }
        match next {
            CardState::Normal(normal) => self.can_place(normal, clock),
            CardState::Filtered(filtered) => {
                if self.card.original_deck_id.0 == 0 {
                    return true;
                }
                match filtered {
                    FilteredState::Preview(preview) => {
                        self.timing.has_rollover(self.now) && self.has_due(
                            preview.interval_kind(),
                            clock,
                        )
                    },
                    FilteredState::Rescheduling(rescheduling) => {
                        (!counts || self.card.reps < u32::MAX - 1) && self.can_place(
                            rescheduling.original_state,
                            clock,
                        )
                    },
                }
            },
        }
    }

    /// Whether the numbers that `next` puts on a card can be held.
    fn can_place(&self, next: NormalState, clock: TimestampSecs) -> (fits: bool)
        ensures
            fits == self.placing_fits(next, clock),
    {
        if !self.timing.has_rollover(self.now) {
            return false;
        }
        if matches!(next, NormalState::New(_)) {
            return true;
        }
        self.has_due(next.interval_kind().maybe_as_days(self.secs_until_rollover()), clock)
    }

    /// Whether the time or the day after `interval` is a number that can be held.
    fn has_due(&self, interval: IntervalKind, clock: TimestampSecs) -> (fits: bool)
        ensures
            fits == self.interval_fits(interval, clock),
    {
        match interval {
            IntervalKind::InSecs(secs) => {
                i64_to_i32(clock.0).checked_add(u32_to_i32(secs)).is_some()
            },
            IntervalKind::InDays(days) => self.timing.days_elapsed.checked_add(days).is_some(),
        }
    }

    /// Moves the card from `current` to `next`, and says what is to be logged. Any
    /// answer but one in a preview is counted and clears the due date that was kept
    /// from the home deck. Learning delays run from `clock`.
    pub fn apply_study_state(
        &mut self,
        current: CardState,
        next: CardState,
        clock: TimestampSecs,
    ) -> (logged: Result<Option<RevlogEntryPartial>, AnkiError>)
        requires
            old(self).study_fits(current, next, clock),
        ensures
            *final(self) == old(self).with_card(old(self).studied(current, next, clock)),
            logged == old(self).study_log(current, next),
        decreases (if next is Normal { 0int } else { 1int }), 1int,
    {
        if !matches!(current, CardState::Filtered(FilteredState::Preview(_))) {
            self.card.reps = self.card.reps + 1;
            self.card.original_due = 0;
        }
        let logged = match next {
            CardState::Normal(normal) => match normal {
                NormalState::New(new) => self.apply_new_state(current, new),
                NormalState::Learning(learn) => self.apply_learning_state(current, learn, clock),
                NormalState::Review(review) => self.apply_review_state(current, review),
                NormalState::Relearning(relearn) => {
                    self.apply_relearning_state(current, relearn, clock)
                },
            },
            CardState::Filtered(filtered) => match filtered {
                FilteredState::Preview(preview) => {
                    self.apply_preview_state(current, preview, clock)
                },
                FilteredState::Rescheduling(rescheduling) => {
                    self.apply_rescheduling_filter_state(current, rescheduling, clock)
                },
            },
        };
        match logged {
            Ok(logged) => {
                if next.leeched() && self.config.inner.leech_action == LeechAction::Suspend {
                    self.card.queue = CardQueue::Suspended;
                }
                Ok(logged)
            },
            Err(error) => Err(error),
        }
    }

    /// Makes the card a new one.
    pub fn apply_new_state(&mut self, current: CardState, next: NewState) -> (logged: Result<
        Option<RevlogEntryPartial>,
        AnkiError,
    >)
        requires
            old(self).timing.rollover_fits(old(self).now),
        ensures
            *final(self) == old(self).with_card(
                old(self).placed(old(self).card, NormalState::New(next), old(self).now),
            ),
            logged == Ok::<_, AnkiError>(
                RevlogEntryPartial::of_change(
                    current,
                    CardState::Normal(NormalState::New(next)),
                    0,
                    old(self).rollover(),
                ),
            ),
    {
        self.card.ctype = CardType::New;
        self.card.queue = CardQueue::New;
        self.card.due = u32_to_i32(next.position);
        Ok(
            RevlogEntryPartial::maybe_new(
                current,
                CardState::Normal(NormalState::New(next)),
                0,
                self.secs_until_rollover(),
            ),
        )
    }

    /// Puts the card into a learning step.
    pub fn apply_learning_state(
        &mut self,
        current: CardState,
        next: LearnState,
        clock: TimestampSecs,
    ) -> (logged: Result<Option<RevlogEntryPartial>, AnkiError>)
        requires
            old(self).placing_fits(NormalState::Learning(next), clock),
        ensures
            *final(self) == old(self).with_card(
                old(self).placed(old(self).card, NormalState::Learning(next), clock),
            ),
            logged == Ok::<_, AnkiError>(
                RevlogEntryPartial::of_change(
                    current,
                    CardState::Normal(NormalState::Learning(next)),
                    0,
                    old(self).rollover(),
                ),
            ),
    {
        self.card.remaining_steps = next.remaining_steps;
        self.card.ctype = CardType::Learn;
        let interval = next.interval_kind().maybe_as_days(self.secs_until_rollover());
        match interval {
            IntervalKind::InSecs(secs) => {
                self.card.queue = CardQueue::Learn;
                self.card.due = i64_to_i32(clock.0) + u32_to_i32(secs);
            },
            IntervalKind::InDays(days) => {
                self.card.queue = CardQueue::DayLearn;
                self.card.due = u32_to_i32(self.timing.days_elapsed + days);
            },
        }
        Ok(
            RevlogEntryPartial::maybe_new(
                current,
                CardState::Normal(NormalState::Learning(next)),
                0,
                self.secs_until_rollover(),
            ),
        )
    }

    /// Schedules the card for review, in its home deck.
    pub fn apply_review_state(&mut self, current: CardState, next: ReviewState) -> (logged: Result<
        Option<RevlogEntryPartial>,
        AnkiError,
    >)
        requires
            old(self).timing.rollover_fits(old(self).now),
            fits_u32(old(self).timing.days_elapsed + next.scheduled_days),
        ensures
            *final(self) == old(self).with_card(
                old(self).placed(old(self).card, NormalState::Review(next), old(self).now),
            ),
            logged == Ok::<_, AnkiError>(
                RevlogEntryPartial::of_change(
                    current,
                    CardState::Normal(NormalState::Review(next)),
                    next.ease_factor,
                    old(self).rollover(),
                ),
            ),
    {
        self.card.remove_from_filtered_deck_before_reschedule();
        self.card.queue = CardQueue::Review;
        self.card.ctype = CardType::Review;
        self.card.interval = next.scheduled_days;
        self.card.due = u32_to_i32(self.timing.days_elapsed + next.scheduled_days);
        self.card.ease_factor = u32_to_u16(next.ease_factor);
        self.card.lapses = next.lapses;
        Ok(
            RevlogEntryPartial::maybe_new(
                current,
                CardState::Normal(NormalState::Review(next)),
                next.ease_factor,
                self.secs_until_rollover(),
            ),
        )
    }

    /// Puts the card into a relearning step.
    pub fn apply_relearning_state(
        &mut self,
        current: CardState,
        next: RelearnState,
        clock: TimestampSecs,
    ) -> (logged: Result<Option<RevlogEntryPartial>, AnkiError>)
        requires
            old(self).placing_fits(NormalState::Relearning(next), clock),
        ensures
            *final(self) == old(self).with_card(
                old(self).placed(old(self).card, NormalState::Relearning(next), clock),
            ),
            logged == Ok::<_, AnkiError>(
                RevlogEntryPartial::of_change(
                    current,
                    CardState::Normal(NormalState::Relearning(next)),
                    next.review.ease_factor,
                    old(self).rollover(),
                ),
            ),
    {
        self.card.interval = next.review.scheduled_days;
        self.card.remaining_steps = next.learning.remaining_steps;
        self.card.ctype = CardType::Relearn;
        let interval = next.interval_kind().maybe_as_days(self.secs_until_rollover());
        match interval {
            IntervalKind::InSecs(secs) => {
                self.card.queue = CardQueue::Learn;
                self.card.due = i64_to_i32(clock.0) + u32_to_i32(secs);
            },
            IntervalKind::InDays(days) => {
                self.card.queue = CardQueue::DayLearn;
                self.card.due = u32_to_i32(self.timing.days_elapsed + days);
            },
        }
        Ok(
            RevlogEntryPartial::maybe_new(
                current,
                CardState::Normal(NormalState::Relearning(next)),
                next.review.ease_factor,
                self.secs_until_rollover(),
            ),
        )
    }

    /// Shows the card in a preview again.
    pub fn apply_preview_state(
        &mut self,
        current: CardState,
        next: PreviewState,
        clock: TimestampSecs,
    ) -> (logged: Result<Option<RevlogEntryPartial>, AnkiError>)
        requires
            old(self).card.original_deck_id.0 != 0 ==> old(self).timing.rollover_fits(
                old(self).now,
            ) && old(self).interval_fits(IntervalKind::InSecs(next.scheduled_secs), clock),
        ensures
            old(self).card.original_deck_id.0 == 0 ==> *final(self) == *old(self) && logged
                == Err::<Option<RevlogEntryPartial>, _>(not_in_filtered_deck()),
            old(self).card.original_deck_id.0 != 0 ==> {
                &&& *final(self) == old(self).with_card(
                    (Card {
                        queue: CardQueue::PreviewRepeat,
                        due: old(self).interval_due(
                            IntervalKind::InSecs(next.scheduled_secs),
                            clock,
                        ),
                        ..old(self).card
                    }),
                )
                &&& logged == Ok::<_, AnkiError>(
                    RevlogEntryPartial::of_change(
                        current,
                        CardState::Filtered(FilteredState::Preview(next)),
                        0,
                        old(self).rollover(),
                    ),
                )
            },
    {
        self.ensure_filtered()?;
        self.card.queue = CardQueue::PreviewRepeat;
        self.card.due = i64_to_i32(clock.0) + u32_to_i32(next.scheduled_secs);
        Ok(
            RevlogEntryPartial::maybe_new(
                current,
                CardState::Filtered(FilteredState::Preview(next)),
                0,
                self.secs_until_rollover(),
            ),
        )
    }

    /// Moves the card to the state that a rescheduling deck wraps.
    pub fn apply_rescheduling_filter_state(
        &mut self,
        current: CardState,
        next: ReschedulingFilterState,
        clock: TimestampSecs,
    ) -> (logged: Result<Option<RevlogEntryPartial>, AnkiError>)
        requires
            old(self).card.original_deck_id.0 != 0 ==> old(self).study_fits(
                current,
                CardState::Normal(next.original_state),
                clock,
            ),
        ensures
            old(self).card.original_deck_id.0 == 0 ==> *final(self) == *old(self) && logged
                == Err::<Option<RevlogEntryPartial>, _>(not_in_filtered_deck()),
            old(self).card.original_deck_id.0 != 0 ==> {
                &&& *final(self) == old(self).with_card(
                    old(self).answered(old(self).card, current, next.original_state, clock),
                )
                &&& logged == old(self).study_log(current, CardState::Normal(next.original_state))
            },
        decreases 1int, 0int,
    {
        self.ensure_filtered()?;
        self.apply_study_state(current, CardState::Normal(next.original_state), clock)
    }

    /// Refuses a card that is not in a filtered deck.
    pub fn ensure_filtered(&self) -> (filtered: Result<(), AnkiError>)
        ensures
            filtered == if self.card.original_deck_id.0 == 0 {
                Err::<(), _>(not_in_filtered_deck())
            } else {
                Ok(())
            },
    {
        if self.card.original_deck_id.0 == 0 {
            Err(AnkiError::InvalidInput(InvalidInput::NotInFilteredDeck))
        } else {
            Ok(())
        }
    }
}

} // verus!
