//! Reading the state of a card.
use vstd::prelude::*;

use crate::card::{Card, CardType};
use crate::deck::{Deck, DeckConf, DeckKind};
use crate::ids::TimestampSecs;
use crate::num::{at_least_zero, u32_to_i32, wrap_i32};
use crate::states::{
    CardState, FilteredState, LearnState, NewState, NextCardStates, NormalState, PreviewState,
    RelearnState, ReschedulingFilterState, ReviewState, StateContext,
};
use crate::steps::{step_delay, LearningSteps};
use crate::timing::SchedTimingToday;

verus! {

/// A card together with what decides how it is studied.
#[derive(Debug, PartialEq, Eq)]
pub struct CardStateUpdater {
    pub card: Card,
    pub deck: Deck,
    pub config: DeckConf,
    pub timing: SchedTimingToday,
    pub now: TimestampSecs,
    pub fuzz_seed: Option<u64>,
}

/// Whether `x` can be held in a signed 32-bit number.
pub open spec fn fits_i32(x: int) -> bool {
    i32::MIN <= x <= i32::MAX
}

/// Whether `x` can be held in an unsigned 32-bit number.
pub open spec fn fits_u32(x: int) -> bool {
    0 <= x <= u32::MAX
}

impl CardStateUpdater {
    /// Today, as due dates count it.
    pub open spec fn today(self) -> i32 {
        wrap_i32(self.timing.days_elapsed as int)
    }

    /// The seconds that are left of the day.
    pub open spec fn rollover(self) -> u32 {
        self.timing.until_rollover(self.now)
    }

    /// When the card is due. A review card in a normal deck counts as due today at
    /// the latest. In a filtered deck it is the due date in the home deck that
    /// counts, for as long as it is kept.
    pub open spec fn study_due(self) -> i32 {
        match self.deck.kind {
            DeckKind::Normal(_) => if self.card.ctype is Review && self.today() < self.card.due {
                self.today()
            } else {
                self.card.due
            },
            DeckKind::Filtered(_) => if self.card.original_due != 0 {
                self.card.original_due
            } else {
                self.card.due
            },
        }
    }

    /// Whether the days since a review card was last seen can be counted.
    pub open spec fn study_state_fits(self, due: i32) -> bool {
        self.card.ctype is Review ==> {
            &&& fits_i32(due - self.today())
            &&& fits_i32(wrap_i32(self.card.interval as int) - (due - self.today()))
        }
    }

    /// The state of the card apart from any filtered deck, if it is due at `due`.
    pub open spec fn study_state(self, due: i32) -> NormalState {
        let steps_to_go = self.card.steps_to_go();
        let ease_factor = self.card.ease_factor as u32;
        match self.card.ctype {
            CardType::New => NormalState::New(
                NewState { position: at_least_zero(due as int) as u32 },
            ),
            CardType::Learn => NormalState::Learning(
                LearnState {
                    remaining_steps: steps_to_go,
                    scheduled_secs: step_delay(self.config.inner.learn_steps@, steps_to_go),
                },
            ),
            CardType::Review => NormalState::Review(
                ReviewState {
                    scheduled_days: self.card.interval,
                    elapsed_days: at_least_zero(
                        wrap_i32(self.card.interval as int) - (due - self.today()),
                    ) as u32,
                    ease_factor,
                    lapses: self.card.lapses,
                    leeched: false,
                },
            ),
            CardType::Relearn => NormalState::Relearning(
                RelearnState {
                    learning: LearnState {
                        remaining_steps: steps_to_go,
                        scheduled_secs: step_delay(self.config.inner.relearn_steps@, steps_to_go),
                    },
                    review: ReviewState {
                        scheduled_days: self.card.interval,
                        elapsed_days: self.card.interval,
                        ease_factor,
                        lapses: self.card.lapses,
                        leeched: false,
                    },
                },
            ),
        }
    }

    /// Whether the numbers that the state of the card is made of can be held.
    pub open spec fn state_fits(self) -> bool {
        &&& self.study_state_fits(self.study_due())
        &&& self.deck.kind matches DeckKind::Filtered(filtered) ==> !filtered.reschedule
            ==> fits_u32(filtered.preview_delay * 60)
    }

    /// The state of the card. A filtered deck wraps the state that the card has
    /// apart from it.
    pub open spec fn state(self) -> CardState {
        let original_state = self.study_state(self.study_due());
        match self.deck.kind {
            DeckKind::Normal(_) => CardState::Normal(original_state),
            DeckKind::Filtered(filtered) => if filtered.reschedule {
                CardState::Filtered(
                    FilteredState::Rescheduling(ReschedulingFilterState { original_state }),
                )
            } else {
                CardState::Filtered(
                    FilteredState::Preview(
                        PreviewState {
                            scheduled_secs: (filtered.preview_delay * 60) as u32,
                            original_state,
                        },
                    ),
                )
            },
        }
    }

    /// What the states that follow an answer are worked out from.
    pub open spec fn context(&self) -> StateContext<'_> {
        let inner = self.config.inner;
        StateContext {
            fuzz_seed: self.fuzz_seed,
            steps: LearningSteps { steps: &self.config.inner.learn_steps },
            graduating_interval_good: inner.graduating_interval_good,
            graduating_interval_easy: inner.graduating_interval_easy,
            hard_multiplier: inner.hard_multiplier,
            easy_multiplier: inner.easy_multiplier,
            interval_multiplier: inner.interval_multiplier,
            maximum_review_interval: inner.maximum_review_interval,
            leech_threshold: inner.leech_threshold,
            relearn_steps: LearningSteps { steps: &self.config.inner.relearn_steps },
            lapse_multiplier: inner.lapse_multiplier,
            minimum_lapse_interval: inner.minimum_lapse_interval,
            in_filtered_deck: self.deck.kind is Filtered,
            preview_step: match self.deck.kind {
                DeckKind::Filtered(filtered) => filtered.preview_delay,
                DeckKind::Normal(_) => 0,
            },
        }
    }

    /// What the states that follow an answer are worked out from.
    pub fn state_context(&self) -> (context: StateContext<'_>)
        ensures
            context == self.context(),
    {
        StateContext {
            fuzz_seed: self.fuzz_seed,
            steps: self.learn_steps(),
            graduating_interval_good: self.config.inner.graduating_interval_good,
            graduating_interval_easy: self.config.inner.graduating_interval_easy,
            hard_multiplier: self.config.inner.hard_multiplier,
            easy_multiplier: self.config.inner.easy_multiplier,
            interval_multiplier: self.config.inner.interval_multiplier,
            maximum_review_interval: self.config.inner.maximum_review_interval,
            leech_threshold: self.config.inner.leech_threshold,
            relearn_steps: self.relearn_steps(),
            lapse_multiplier: self.config.inner.lapse_multiplier,
            minimum_lapse_interval: self.config.inner.minimum_lapse_interval,
            in_filtered_deck: self.deck.is_filtered(),
            preview_step: match self.deck.kind {
                DeckKind::Filtered(filtered) => filtered.preview_delay,
                DeckKind::Normal(_) => 0,
            },
        }
    }

    /// The seconds that are left of the day.
    pub fn secs_until_rollover(&self) -> (secs: u32)
        requires
            self.timing.rollover_fits(self.now),
        ensures
            secs == self.rollover(),
    {
        self.timing.secs_until_rollover(self.now)
    }

    /// The state of the card apart from any filtered deck, if it is due at `due`.
    pub fn normal_study_state(&self, due: i32) -> (state: NormalState)
        requires
            self.study_state_fits(due),
        ensures
            state == self.study_state(due),
    {
        let interval: u32 = self.card.interval;
        let lapses: u32 = self.card.lapses;
        let ease_factor: u32 = self.card.ease_factor();
        let remaining_steps: u32 = self.card.remaining_steps();
        match self.card.ctype {
            CardType::New => NormalState::New(
                NewState { position: if due > 0 { due as u32 } else { 0 } },
            ),
            CardType::Learn => NormalState::Learning(
                LearnState {
                    scheduled_secs: self.learn_steps().current_delay_secs(remaining_steps),
                    remaining_steps,
                },
            ),
            CardType::Review => {
                let elapsed: i32 = u32_to_i32(interval) - (due - u32_to_i32(
                    self.timing.days_elapsed,
                ));
                NormalState::Review(
                    ReviewState {
                        scheduled_days: interval,
                        elapsed_days: if elapsed > 0 { elapsed as u32 } else { 0 },
                        ease_factor,
                        lapses,
                        leeched: false,
                    },
                )
            },
            CardType::Relearn => NormalState::Relearning(
                RelearnState {
                    learning: LearnState {
                        scheduled_secs: self.relearn_steps().current_delay_secs(remaining_steps),
                        remaining_steps,
                    },
                    review: ReviewState {
                        scheduled_days: interval,
                        elapsed_days: interval,
                        ease_factor,
                        lapses,
                        leeched: false,
                    },
                },
            ),
        }
    }

    /// When the card is due.
    fn current_due(&self) -> (due: i32)
        ensures
            due == self.study_due(),
    {
        match self.deck.kind {
            DeckKind::Normal(_) => {
                let today: i32 = u32_to_i32(self.timing.days_elapsed);
                if matches!(self.card.ctype, CardType::Review) && today < self.card.due {
                    today
                } else {
                    self.card.due
                }
            },
            DeckKind::Filtered(_) => {
                if self.card.original_due != 0 {
                    self.card.original_due
                } else {
                    self.card.due
                }
            },
        }
    }

    /// Whether [`CardStateUpdater::current_card_state`] can be worked out.
    pub fn has_card_state(&self) -> (fits: bool)
        ensures
            fits == self.state_fits(),
    {
        let due: i32 = self.current_due();
        let study_state_fits: bool = if matches!(self.card.ctype, CardType::Review) {
            match due.checked_sub(u32_to_i32(self.timing.days_elapsed)) {
                Some(ahead) => u32_to_i32(self.card.interval).checked_sub(ahead).is_some(),
                None => false,
            }
        } else {
            true
        };
        let delay_fits: bool = match self.deck.kind {
            DeckKind::Normal(_) => true,
            DeckKind::Filtered(filtered) => {
                filtered.reschedule || filtered.preview_delay.checked_mul(60).is_some()
            },
        };
        study_state_fits && delay_fits
    }

    /// The state of the card.
    pub fn current_card_state(&self) -> (state: CardState)
        requires
            self.state_fits(),
        ensures
            state == self.state(),
    {
        let due: i32 = self.current_due();
        let original_state = self.normal_study_state(due);
        match self.deck.kind {
            DeckKind::Normal(_) => CardState::Normal(original_state),
            DeckKind::Filtered(filtered) => {
                if filtered.reschedule {
                    CardState::Filtered(
                        FilteredState::Rescheduling(ReschedulingFilterState { original_state }),
                    )
                } else {
                    CardState::Filtered(
                        FilteredState::Preview(
                            PreviewState {
                                scheduled_secs: filtered.preview_delay * 60,
                                original_state,
                            },
                        ),
                    )
                }
            },
        }
    }

    /// The card alone.
    pub fn into_card(self) -> (card: Card)
        ensures
            card == self.card,
    {
        self.card
    }

    /// The steps of a new card.
    pub fn learn_steps(&self) -> (steps: LearningSteps<'_>)
        ensures
            steps == (LearningSteps { steps: &self.config.inner.learn_steps }),
    {
        LearningSteps::new(&self.config.inner.learn_steps)
    }

    /// The steps of a forgotten card.
    pub fn relearn_steps(&self) -> (steps: LearningSteps<'_>)
        ensures
            steps == (LearningSteps { steps: &self.config.inner.relearn_steps }),
    {
        LearningSteps::new(&self.config.inner.relearn_steps)
    }

    /// The states that the four buttons lead to, as `next_states` works them out from
    /// the state of the card and its context.
    pub fn next_card_states<F: Fn(CardState, StateContext<'_>) -> NextCardStates>(
        &self,
        next_states: F,
    ) -> (states: NextCardStates)
        requires
            self.state_fits(),
            call_requires(next_states, (self.state(), self.context())),
        ensures
            call_ensures(next_states, (self.state(), self.context()), states),
    {
        next_states(self.current_card_state(), self.state_context())
    }
}

} // verus!
