//! What can go wrong.
use vstd::prelude::*;

use crate::states::CardState;

verus! {

/// Why a request was refused.
#[derive(Debug, PartialEq, Eq)]
pub enum InvalidInput {
    /// The card is not in the state that the answer was given for.
    CardModified { current: CardState, answered: CardState },
    /// The answer leads into a filtered deck that the card is not in.
    NotInFilteredDeck,
}

/// Why a request failed.
#[derive(Debug, PartialEq, Eq)]
pub enum AnkiError {
    /// A card, a deck or deck options that are needed do not exist.
    NotFound,
    /// The request does not fit the collection.
    InvalidInput(InvalidInput),
    /// The collection could not be read or written.
    DbError { info: String },
}

impl InvalidInput {
    /// The refusal in words. For a modified card, the two states are to follow.
    pub fn summary(&self) -> (text: &'static str)
        ensures
            self is CardModified ==> text@ == "card was modified"@,
            self is NotInFilteredDeck ==> text@
                == "card answering can't transition into filtered state"@,
    {
        match self {
            InvalidInput::CardModified { .. } => "card was modified",
            InvalidInput::NotInFilteredDeck => {
                "card answering can't transition into filtered state"
            },
        }
    }
}

} // verus!
