//! Answers, and what they change.
use vstd::prelude::*;

use crate::applying::not_in_filtered_deck;
use crate::card::Card;
use crate::error::AnkiError;
use crate::ids::{CardID, NoteID, TimestampMillis, TimestampSecs, Usn};
use crate::num::{i64_to_u64, u32_to_i32, wrap_i32, wrap_u64};
use crate::revlog::RevlogEntry;
use crate::states::{CardState, NormalState};
use crate::updater::CardStateUpdater;

verus! {

/// The button that was pressed.
#[derive(Debug, Clone, Copy, PartialEq, Eq, Structural)]
pub enum Rating {
    Again,
    Hard,
    Good,
    Easy,
}

impl Rating {
    /// The number of the button, counted from one.
    pub open spec fn number(self) -> u8 {
        match self {
            Rating::Again => 1,
            Rating::Hard => 2,
            Rating::Good => 3,
            Rating::Easy => 4,
        }
    }

    /// The number of the button, counted from one.
    pub fn as_number(self) -> (number: u8)
        ensures
            number == self.number(),
    {
        match self {
            Rating::Again => 1,
            Rating::Hard => 2,
            Rating::Good => 3,
            Rating::Easy => 4,
        }
    }
}

/// An answer to a card.
#[derive(Debug, Clone, Copy, PartialEq, Eq, Structural)]
pub struct CardAnswer {
    pub card_id: CardID,
    /// The state that the answer was given for.
    pub current_state: CardState,
    /// The state that the answer leads to.
    pub new_state: CardState,
    pub rating: Rating,
    pub answered_at: TimestampMillis,
    pub milliseconds_taken: u32,
}

/// What an answer adds to the statistics of a deck.
#[derive(Debug, Clone, Copy, PartialEq, Eq, Structural)]
pub struct UpdateStatsIn {
    pub deck_id: i64,
    pub new_delta: i32,
    pub review_delta: i32,
    pub millisecond_delta: i32,
}

/// An addition to the statistics of a deck for a day.
#[derive(Debug, Clone, Copy, PartialEq, Eq, Structural)]
pub struct DeckStatsUpdate {
    pub today: u32,
    pub usn: Usn,
    pub stats: UpdateStatsIn,
}

/// A card that takes the place of what it was before.
#[derive(Debug, Clone, Copy, PartialEq, Eq, Structural)]
pub struct CardUpdate {
    pub card: Card,
    pub original: Card,
    pub usn: Usn,
}

/// All that an answer changes, in the order in which it is to be written.
#[derive(Debug, Clone, Copy, PartialEq, Eq, Structural)]
pub struct AnswerChanges {
    /// The entry for the review log, unless the card was only looked at.
    pub entry: Option<RevlogEntry>,
    pub stats: DeckStatsUpdate,
    pub card: CardUpdate,
    /// The note to be tagged, if the card has become a leech.
    pub leech: Option<NoteID>,
}

/// The seed for a card that has been answered `reps` times.
pub open spec fn fuzz_seed(id: CardID, reps: u32, testing: bool) -> Option<u64> {
    if testing {
        None
    } else {
        Some(wrap_u64(id.0 + reps))
    }
}

/// A seed that stays the same for a card until it is answered again. While testing
/// there is none, and intervals are not varied.
pub fn get_fuzz_seed(card: &Card, testing: bool) -> (seed: Option<u64>)
    ensures
        seed == fuzz_seed(card.id, card.reps, testing),
{
    if testing {
        None
    } else {
        Some(i64_to_u64(card.id.0).wrapping_add(card.reps as u64))
    }
}

impl CardAnswer {
    /// What the answer adds to the statistics of the deck that the card is in.
    pub open spec fn stats(self, updater: CardStateUpdater, usn: Usn) -> DeckStatsUpdate {
        DeckStatsUpdate {
            today: updater.timing.days_elapsed,
            usn,
            stats: UpdateStatsIn {
                deck_id: updater.deck.id.0,
                new_delta: if self.current_state matches CardState::Normal(state) && state is New {
                    1
                } else {
                    0
                },
                review_delta: if self.current_state matches CardState::Normal(state)
                    && state is Review {
                    1
                } else {
                    0
                },
                millisecond_delta: wrap_i32(self.milliseconds_taken as int),
            },
        }
    }

    /// The entry that the answer leaves in the review log.
    pub open spec fn entry(self, updater: CardStateUpdater, usn: Usn) -> Option<RevlogEntry> {
        match updater.study_log(self.current_state, self.new_state) {
            Ok(Some(partial)) => Some(
                partial.completed(
                    usn,
                    self.card_id,
                    self.rating.number(),
                    self.answered_at,
                    self.milliseconds_taken,
                ),
            ),
            _ => None,
        }
    }

    /// All that the answer changes if it is given to the card of `updater` at `clock`.
    pub open spec fn changes(
        self,
        updater: CardStateUpdater,
        usn: Usn,
        clock: TimestampSecs,
    ) -> AnswerChanges {
        AnswerChanges {
            entry: self.entry(updater, usn),
            stats: self.stats(updater, usn),
            card: CardUpdate {
                card: updater.studied(self.current_state, self.new_state, clock),
                original: updater.card,
                usn,
            },
            leech: if self.new_state.is_leech() {
                Some(updater.card.note_id)
            } else {
                None
            },
        }
    }

    /// Works out all that the answer changes. The answer has been given to the card of
    /// `updater` in the state that it says, and takes effect at `clock`.
    pub fn apply(&self, updater: CardStateUpdater, usn: Usn, clock: TimestampSecs) -> (applied:
        Result<AnswerChanges, AnkiError>)
        requires
            updater.study_fits(self.current_state, self.new_state, clock),
        ensures
            applied == if updater.refuses(self.new_state) {
                Err::<AnswerChanges, _>(not_in_filtered_deck())
            } else {
                Ok(self.changes(updater, usn, clock))
            },
    {
        let original: Card = updater.card;
        let mut updater = updater;
        let entry = match updater.apply_study_state(self.current_state, self.new_state, clock) {
            Ok(Some(partial)) => Some(
                partial.into_revlog_entry(
                    usn,
                    self.card_id,
                    self.rating.as_number(),
                    self.answered_at,
                    self.milliseconds_taken,
                ),
            ),
            Ok(None) => None,
            Err(error) => return Err(error),
        };
        let stats = DeckStatsUpdate {
            today: updater.timing.days_elapsed,
            usn,
            stats: UpdateStatsIn {
                deck_id: updater.deck.id.0,
                new_delta: if matches!(self.current_state, CardState::Normal(NormalState::New(_))) {
                    1
                } else {
                    0
                },
                review_delta: if matches!(
                    self.current_state,
                    CardState::Normal(NormalState::Review(_))
                ) {
                    1
                } else {
                    0
                },
                millisecond_delta: u32_to_i32(self.milliseconds_taken),
            },
        };
        let card: Card = updater.into_card();
        let leech = if self.new_state.leeched() {
            Some(card.note_id)
        } else {
            None
        };
        Ok(AnswerChanges { entry, stats, card: CardUpdate { card, original, usn }, leech })
    }
}

} // verus!
