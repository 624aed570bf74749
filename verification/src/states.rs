//! The states that a card can be in while it is studied.
use vstd::prelude::*;

use crate::deck::Multiplier;
use crate::interval::IntervalKind;
use crate::revlog::RevlogReviewKind;
use crate::steps::LearningSteps;

verus! {

/// Never studied.
#[derive(Debug, Clone, Copy, PartialEq, Eq, Structural)]
pub struct NewState {
    pub position: u32,
}

/// On the way through the learning steps.
#[derive(Debug, Clone, Copy, PartialEq, Eq, Structural)]
pub struct LearnState {
    pub remaining_steps: u32,
    pub scheduled_secs: u32,
}

/// Learnt, and shown at growing intervals.
#[derive(Debug, Clone, Copy, PartialEq, Eq, Structural)]
pub struct ReviewState {
    pub scheduled_days: u32,
    pub elapsed_days: u32,
    /// How easy the card is, in thousandths: the unit in which cards and the review
    /// log keep it.
    pub ease_factor: u32,
    pub lapses: u32,
    /// Whether the card was forgotten so often that it has become a leech.
    pub leeched: bool,
}

/// Forgotten, and on the way through the relearning steps.
#[derive(Debug, Clone, Copy, PartialEq, Eq, Structural)]
pub struct RelearnState {
    pub learning: LearnState,
    pub review: ReviewState,
}

/// The state of a card in a normal deck.
#[derive(Debug, Clone, Copy, PartialEq, Eq, Structural)]
pub enum NormalState {
    New(NewState),
    Learning(LearnState),
    Review(ReviewState),
    Relearning(RelearnState),
}

/// The state of a card that is looked at without being rescheduled.
#[derive(Debug, Clone, Copy, PartialEq, Eq, Structural)]
pub struct PreviewState {
    pub scheduled_secs: u32,
    pub original_state: NormalState,
}

/// The state of a card in a filtered deck that reschedules.
#[derive(Debug, Clone, Copy, PartialEq, Eq, Structural)]
pub struct ReschedulingFilterState {
    pub original_state: NormalState,
}

/// The state of a card in a filtered deck.
#[derive(Debug, Clone, Copy, PartialEq, Eq, Structural)]
pub enum FilteredState {
    Preview(PreviewState),
    Rescheduling(ReschedulingFilterState),
}

/// The state of a card.
#[derive(Debug, Clone, Copy, PartialEq, Eq, Structural)]
pub enum CardState {
    Normal(NormalState),
    Filtered(FilteredState),
}

/// The states that the four buttons lead to.
#[derive(Debug, Clone, Copy, PartialEq, Eq, Structural)]
pub struct NextCardStates {
    pub current: CardState,
    pub again: CardState,
    pub hard: CardState,
    pub good: CardState,
    pub easy: CardState,
}

/// What the states that follow an answer are worked out from.
#[derive(Debug, Clone, Copy, PartialEq, Eq)]
pub struct StateContext<'a> {
    pub fuzz_seed: Option<u64>,
    pub steps: LearningSteps<'a>,
    pub graduating_interval_good: u32,
    pub graduating_interval_easy: u32,
    pub hard_multiplier: Multiplier,
    pub easy_multiplier: Multiplier,
    pub interval_multiplier: Multiplier,
    pub maximum_review_interval: u32,
    pub leech_threshold: u32,
    pub relearn_steps: LearningSteps<'a>,
    pub lapse_multiplier: Multiplier,
    pub minimum_lapse_interval: u32,
    pub in_filtered_deck: bool,
    pub preview_step: u32,
}

impl LearnState {
    /// The time until the next step.
    pub fn interval_kind(self) -> (interval: IntervalKind)
        ensures
            interval == IntervalKind::InSecs(self.scheduled_secs),
    {
        IntervalKind::InSecs(self.scheduled_secs)
    }
}

impl RelearnState {
    /// The time until the next step.
    pub fn interval_kind(self) -> (interval: IntervalKind)
        ensures
            interval == IntervalKind::InSecs(self.learning.scheduled_secs),
    {
        self.learning.interval_kind()
    }
}

impl PreviewState {
    /// The time until the card is shown again in the preview.
    pub fn interval_kind(self) -> (interval: IntervalKind)
        ensures
            interval == IntervalKind::InSecs(self.scheduled_secs),
    {
        IntervalKind::InSecs(self.scheduled_secs)
    }
}

impl NormalState {
    /// The time until the card is shown again; a new card can be shown at once.
    pub open spec fn interval(self) -> IntervalKind {
        match self {
            NormalState::New(_) => IntervalKind::InSecs(0),
            NormalState::Learning(state) => IntervalKind::InSecs(state.scheduled_secs),
            NormalState::Review(state) => IntervalKind::InDays(state.scheduled_days),
            NormalState::Relearning(state) => IntervalKind::InSecs(state.learning.scheduled_secs),
        }
    }

    /// What an answer in this state is logged as; a review counts as early while
    /// fewer days have passed than were scheduled.
    pub open spec fn log_kind(self) -> RevlogReviewKind {
        match self {
            NormalState::New(_) => RevlogReviewKind::Learning,
            NormalState::Learning(_) => RevlogReviewKind::Learning,
            NormalState::Review(state) => if state.elapsed_days < state.scheduled_days {
                RevlogReviewKind::EarlyReview
            } else {
                RevlogReviewKind::Review
            },
            NormalState::Relearning(_) => RevlogReviewKind::Relearning,
        }
    }

    /// Whether the card is a leech.
    pub open spec fn is_leech(self) -> bool {
        match self {
            NormalState::Review(state) => state.leeched,
            NormalState::Relearning(state) => state.review.leeched,
            _ => false,
        }
    }

    /// The time until the card is shown again.
    pub fn interval_kind(self) -> (interval: IntervalKind)
        ensures
            interval == self.interval(),
    {
        match self {
            NormalState::New(_) => IntervalKind::InSecs(0),
            NormalState::Learning(state) => state.interval_kind(),
            NormalState::Review(state) => IntervalKind::InDays(state.scheduled_days),
            NormalState::Relearning(state) => state.interval_kind(),
        }
    }

    /// What an answer in this state is logged as.
    pub fn revlog_kind(self) -> (kind: RevlogReviewKind)
        ensures
            kind == self.log_kind(),
    {
        match self {
            NormalState::New(_) => RevlogReviewKind::Learning,
            NormalState::Learning(_) => RevlogReviewKind::Learning,
            NormalState::Review(state) => {
                if state.elapsed_days < state.scheduled_days {
                    RevlogReviewKind::EarlyReview
                } else {
                    RevlogReviewKind::Review
                }
            },
            NormalState::Relearning(_) => RevlogReviewKind::Relearning,
        }
    }

    /// Whether the card is a leech.
    pub fn leeched(self) -> (leech: bool)
        ensures
            leech == self.is_leech(),
    {
        match self {
            NormalState::New(_) => false,
            NormalState::Learning(_) => false,
            NormalState::Review(state) => state.leeched,
            NormalState::Relearning(state) => state.review.leeched,
        }
    }
}

impl CardState {
    /// The state that the card has apart from any filtered deck.
    pub open spec fn underlying(self) -> NormalState {
        match self {
            CardState::Normal(state) => state,
            CardState::Filtered(FilteredState::Preview(state)) => state.original_state,
            CardState::Filtered(FilteredState::Rescheduling(state)) => state.original_state,
        }
    }

    /// Whether the card is only being looked at.
    pub open spec fn is_preview(self) -> bool {
        self matches CardState::Filtered(filtered) && filtered is Preview
    }

    /// Whether the card is being rescheduled from a filtered deck.
    pub open spec fn is_rescheduling(self) -> bool {
        self matches CardState::Filtered(filtered) && filtered is Rescheduling
    }

    /// The time until the card is shown again.
    pub open spec fn interval(self) -> IntervalKind {
        match self {
            CardState::Filtered(FilteredState::Preview(state)) => IntervalKind::InSecs(
                state.scheduled_secs,
            ),
            _ => self.underlying().interval(),
        }
    }

    /// What an answer in this state is logged as; previews are not logged.
    pub open spec fn log_kind(self) -> Option<RevlogReviewKind> {
        if self.is_preview() {
            None
        } else {
            Some(self.underlying().log_kind())
        }
    }

    /// Whether the card is a leech.
    pub open spec fn is_leech(self) -> bool {
        self.underlying().is_leech()
    }

    /// The time until the card is shown again.
    pub fn interval_kind(self) -> (interval: IntervalKind)
        ensures
            interval == self.interval(),
    {
        match self {
            CardState::Normal(state) => state.interval_kind(),
            CardState::Filtered(FilteredState::Preview(state)) => state.interval_kind(),
            CardState::Filtered(FilteredState::Rescheduling(state)) => {
                state.original_state.interval_kind()
            },
        }
    }

    /// What an answer in this state is logged as, if it is logged.
    pub fn revlog_kind(self) -> (kind: Option<RevlogReviewKind>)
        ensures
            kind == self.log_kind(),
    {
        match self {
            CardState::Normal(state) => Some(state.revlog_kind()),
            CardState::Filtered(FilteredState::Preview(_)) => None,
            CardState::Filtered(FilteredState::Rescheduling(state)) => {
                Some(state.original_state.revlog_kind())
            },
        }
    }

    /// Whether the card is a leech.
    pub fn leeched(self) -> (leech: bool)
        ensures
            leech == self.is_leech(),
    {
        match self {
            CardState::Normal(state) => state.leeched(),
            CardState::Filtered(FilteredState::Preview(state)) => state.original_state.leeched(),
            CardState::Filtered(FilteredState::Rescheduling(state)) => {
                state.original_state.leeched()
            },
        }
    }
}

} // verus!
