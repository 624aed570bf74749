//! Identifiers and points in time.
use vstd::prelude::*;

verus! {

/// Identifies a card.
#[derive(Debug, Clone, Copy, PartialEq, Eq, Structural)]
pub struct CardID(pub i64);

/// Identifies the note that a card was made from.
#[derive(Debug, Clone, Copy, PartialEq, Eq, Structural)]
pub struct NoteID(pub i64);

/// Identifies a deck. Zero stands for no deck.
#[derive(Debug, Clone, Copy, PartialEq, Eq, Structural)]
pub struct DeckID(pub i64);

/// Identifies a set of deck options.
#[derive(Debug, Clone, Copy, PartialEq, Eq, Structural)]
pub struct DeckConfID(pub i64);

/// The update sequence number that a change is recorded under.
#[derive(Debug, Clone, Copy, PartialEq, Eq, Structural)]
pub struct Usn(pub i32);

/// Seconds since the epoch.
#[derive(Debug, Clone, Copy, PartialEq, Eq, Structural)]
pub struct TimestampSecs(pub i64);

/// Milliseconds since the epoch.
#[derive(Debug, Clone, Copy, PartialEq, Eq, Structural)]
pub struct TimestampMillis(pub i64);

} // verus!
