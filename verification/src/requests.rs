//! What a study session asks of the collection's keeper, and what comes back.
//!
//! The keeper holds the stored cards, decks and options, and the clock. A session
//! never touches them itself: it hands out one request at a time and goes on with
//! the reply.
use vstd::prelude::*;

use crate::answering::{CardUpdate, DeckStatsUpdate};
use crate::card::Card;
use crate::deck::{Deck, DeckConf};
use crate::error::AnkiError;
use crate::ids::{CardID, DeckConfID, DeckID, NoteID, TimestampSecs, Usn};
use crate::revlog::RevlogEntry;
use crate::timing::SchedTimingToday;

verus! {

/// Something to be looked up.
#[derive(Debug, Clone, Copy, PartialEq, Eq, Structural)]
pub enum Fetch {
    Card(CardID),
    /// The update sequence number for changes made now.
    Usn,
    TimingToday,
    Deck(DeckID),
    DeckConfig(DeckConfID),
    /// The options that hold where a deck's own are gone.
    DefaultDeckConfig,
    /// The time of day.
    Clock,
}

/// What was found.
#[derive(Debug, PartialEq, Eq)]
pub enum Reply {
    Card(Result<Option<Card>, AnkiError>),
    Usn(Result<Usn, AnkiError>),
    TimingToday(Result<SchedTimingToday, AnkiError>),
    Deck(Result<Option<Deck>, AnkiError>),
    DeckConfig(Result<Option<DeckConf>, AnkiError>),
    DefaultDeckConfig(DeckConf),
    Clock(TimestampSecs),
}

/// Something to be done.
#[derive(Debug, Clone, Copy, PartialEq, Eq, Structural)]
pub enum Action {
    /// Start a transaction: what is written from here on holds together.
    Begin,
    Fetch(Fetch),
    AddRevlogEntry(RevlogEntry),
    UpdateDeckStats(DeckStatsUpdate),
    UpdateCard(CardUpdate),
    /// Add the tag of [`crate::collection::push_leech_tag`] to a note.
    AddLeechTag(NoteID),
}

/// What sets a session going, and what came of an action.
#[derive(Debug, PartialEq, Eq)]
pub enum Event {
    /// The user has asked for something.
    Asked,
    Done(Result<(), AnkiError>),
    Reply(Reply),
}

impl Reply {
    /// Whether this is a reply to `fetch`.
    pub open spec fn answers(self, fetch: Fetch) -> bool {
        match fetch {
            Fetch::Card(_) => self is Card,
            Fetch::Usn => self is Usn,
            Fetch::TimingToday => self is TimingToday,
            Fetch::Deck(_) => self is Deck,
            Fetch::DeckConfig(_) => self is DeckConfig,
            Fetch::DefaultDeckConfig => self is DefaultDeckConfig,
            Fetch::Clock => self is Clock,
        }
    }

    /// What kept the keeper from looking it up, if anything.
    pub open spec fn failure(self) -> Option<AnkiError> {
        match self {
            Reply::Card(Err(error)) => Some(error),
            Reply::Usn(Err(error)) => Some(error),
            Reply::TimingToday(Err(error)) => Some(error),
            Reply::Deck(Err(error)) => Some(error),
            Reply::DeckConfig(Err(error)) => Some(error),
            _ => None,
        }
    }
}

impl Event {
    /// Whether this can come of `action`.
    pub open spec fn answers(self, action: Action) -> bool {
        match (action, self) {
            (Action::Fetch(fetch), Event::Reply(reply)) => reply.answers(fetch),
            (Action::Fetch(_), _) => false,
            (_, event) => event is Done,
        }
    }

    /// What kept the keeper from doing it, if anything.
    pub open spec fn failure(self) -> Option<AnkiError> {
        match self {
            Event::Asked => None,
            Event::Done(Err(error)) => Some(error),
            Event::Done(Ok(_)) => None,
            Event::Reply(reply) => reply.failure(),
        }
    }
}

impl Action {
    /// Whether the action changes the collection.
    pub open spec fn writes(self) -> bool {
        match self {
            Action::Begin => false,
            Action::Fetch(_) => false,
            _ => true,
        }
    }
}

} // verus!
