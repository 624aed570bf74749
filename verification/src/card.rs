//! Cards, as far as answering reads and changes them.
use vstd::prelude::*;

use crate::ids::{CardID, DeckID, NoteID};

verus! {

/// How far a card has come.
#[derive(Debug, Clone, Copy, PartialEq, Eq, Structural)]
pub enum CardType {
    New,
    Learn,
    Review,
    Relearn,
}

/// Where a card waits for its next turn.
#[derive(Debug, Clone, Copy, PartialEq, Eq, Structural)]
pub enum CardQueue {
    /// Due is the position among the new cards.
    New,
    /// Due is a point in time.
    Learn,
    /// Due is a day.
    Review,
    /// A learning step that crosses into another day; due is a day.
    DayLearn,
    /// In a preview, to be shown again; due is a point in time.
    PreviewRepeat,
    /// Held back until the user lets it go.
    Suspended,
    /// Held back by the scheduler until the day ends.
    SchedBuried,
    /// Held back by the user until the day ends.
    UserBuried,
}

/// A card.
#[derive(Debug, Clone, Copy, PartialEq, Eq, Structural)]
pub struct Card {
    pub id: CardID,
    pub note_id: NoteID,
    pub deck_id: DeckID,
    pub ctype: CardType,
    pub queue: CardQueue,
    /// A position, a day or a point in time, as the queue says.
    pub due: i32,
    /// Days between the last two reviews.
    pub interval: u32,
    /// How easy the card is, in thousandths.
    pub ease_factor: u16,
    /// How often the card was answered.
    pub reps: u32,
    /// How often the card was forgotten.
    pub lapses: u32,
    /// Learning steps to go in the lowest three digits; the digits above them
    /// count the steps that can be taken today.
    pub remaining_steps: u32,
    /// While in a filtered deck: when the card was due in its home deck.
    pub original_due: i32,
    /// While in a filtered deck: the home deck. Zero otherwise.
    pub original_deck_id: DeckID,
}

impl Card {
    /// The learning steps to go.
    pub open spec fn steps_to_go(self) -> u32 {
        (self.remaining_steps % 1000) as u32
    }

    /// The card back in its home deck, if it is away from it.
    pub open spec fn sent_home(self) -> Card {
        if self.original_deck_id.0 != 0 {
            Card {
                deck_id: self.original_deck_id,
                original_deck_id: DeckID(0),
                original_due: 0,
                ..self
            }
        } else {
            self
        }
    }

    /// How easy the card is, in thousandths.
    pub fn ease_factor(&self) -> (thousandths: u32)
        ensures
            thousandths == self.ease_factor,
    {
        self.ease_factor as u32
    }

    /// The learning steps to go, without the count of those for today.
    pub fn remaining_steps(&self) -> (steps: u32)
        ensures
            steps == self.steps_to_go(),
    {
        self.remaining_steps % 1000
    }

    /// Restores the card to its home deck and clears what was kept of its due date
    /// there. Queue and type stay as they are.
    pub fn remove_from_filtered_deck_before_reschedule(&mut self)
        ensures
            *final(self) == old(self).sent_home(),
    {
        if self.original_deck_id.0 != 0 {
            self.deck_id = self.original_deck_id;
            self.original_deck_id = DeckID(0);
            self.original_due = 0;
        }
    }
}

} // verus!
