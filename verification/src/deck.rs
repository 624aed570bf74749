//! Decks and their options, as far as answering reads them.
use vstd::prelude::*;

use crate::ids::{DeckConfID, DeckID};

verus! {

/// A deck that cards live in.
#[derive(Debug, Clone, Copy, PartialEq, Eq, Structural)]
pub struct NormalDeck {
    pub config_id: DeckConfID,
}

/// A deck that borrows cards from other decks.
#[derive(Debug, Clone, Copy, PartialEq, Eq, Structural)]
pub struct FilteredDeck {
    /// Whether answers change when the cards are next due in their home decks.
    pub reschedule: bool,
    /// Minutes until a previewed card is shown again.
    pub preview_delay: u32,
}

/// The two kinds of decks.
#[derive(Debug, Clone, Copy, PartialEq, Eq, Structural)]
pub enum DeckKind {
    Normal(NormalDeck),
    Filtered(FilteredDeck),
}

/// A deck.
#[derive(Debug, Clone, Copy, PartialEq, Eq, Structural)]
pub struct Deck {
    pub id: DeckID,
    pub kind: DeckKind,
}

impl Deck {
    /// The options of the deck; a filtered deck has none of its own.
    pub open spec fn options(self) -> Option<DeckConfID> {
        match self.kind {
            DeckKind::Normal(normal) => Some(normal.config_id),
            DeckKind::Filtered(_) => None,
        }
    }

    /// Whether the deck borrows its cards.
    pub fn is_filtered(&self) -> (filtered: bool)
        ensures
            filtered == (self.kind is Filtered),
    {
        match self.kind {
            DeckKind::Normal(_) => false,
            DeckKind::Filtered(_) => true,
        }
    }

    /// The options of the deck, if it has its own.
    pub fn config_id(&self) -> (id: Option<DeckConfID>)
        ensures
            id == self.options(),
    {
        match self.kind {
            DeckKind::Normal(normal) => Some(normal.config_id),
            DeckKind::Filtered(_) => None,
        }
    }
}

/// What to do with a card that is forgotten again and again.
#[derive(Debug, Clone, Copy, PartialEq, Eq, Structural)]
pub enum LeechAction {
    Suspend,
    TagOnly,
}

/// A factor that intervals are multiplied by, as the bits of a single-precision
/// number. It is passed on untouched.
#[derive(Debug, Clone, Copy, PartialEq, Eq, Structural)]
pub struct Multiplier(pub u32);

/// The options that decide how cards of a deck are scheduled.
#[derive(Debug, PartialEq, Eq)]
pub struct DeckConfInner {
    /// Delays between the steps of a new card, in seconds.
    pub learn_steps: Vec<u32>,
    /// Delays between the steps of a forgotten card, in seconds.
    pub relearn_steps: Vec<u32>,
    pub graduating_interval_good: u32,
    pub graduating_interval_easy: u32,
    pub hard_multiplier: Multiplier,
    pub easy_multiplier: Multiplier,
    pub interval_multiplier: Multiplier,
    pub lapse_multiplier: Multiplier,
    pub maximum_review_interval: u32,
    pub minimum_lapse_interval: u32,
    pub leech_threshold: u32,
    pub leech_action: LeechAction,
}

/// A set of deck options.
#[derive(Debug, PartialEq, Eq)]
pub struct DeckConf {
    pub id: DeckConfID,
    pub inner: DeckConfInner,
}

} // verus!
