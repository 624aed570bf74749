//! The review log: one entry for each answer.
use vstd::prelude::*;

use crate::ids::{CardID, TimestampMillis, Usn};
use crate::interval::IntervalKind;
use crate::states::CardState;

verus! {

/// What kind of study an entry records.
#[derive(Debug, Clone, Copy, PartialEq, Eq, Structural)]
pub enum RevlogReviewKind {
    Learning,
    Review,
    Relearning,
    EarlyReview,
    Manual,
}

/// An entry of the review log.
#[derive(Debug, Clone, Copy, PartialEq, Eq, Structural)]
pub struct RevlogEntry {
    pub id: TimestampMillis,
    pub cid: CardID,
    pub usn: Usn,
    pub button_chosen: u8,
    /// Positive in days, negative in seconds.
    pub interval: i32,
    /// Positive in days, negative in seconds.
    pub last_interval: i32,
    /// In thousandths; zero where the card has none.
    pub ease_factor: u32,
    pub taken_millis: u32,
    pub review_kind: RevlogReviewKind,
}

/// The part of an entry that follows from the change of state alone.
#[derive(Debug, Clone, Copy, PartialEq, Eq, Structural)]
pub struct RevlogEntryPartial {
    pub interval: IntervalKind,
    pub last_interval: IntervalKind,
    /// In thousandths; zero where the card has none.
    pub ease_factor: u32,
    pub review_kind: RevlogReviewKind,
}

impl RevlogEntryPartial {
    /// What is logged when a card goes from `current` to `next` while the day has
    /// `secs_until_rollover` seconds to go.
    pub open spec fn of_change(
        current: CardState,
        next: CardState,
        ease_factor: u32,
        secs_until_rollover: u32,
    ) -> Option<RevlogEntryPartial> {
        match current.log_kind() {
            Some(review_kind) => Some(
                RevlogEntryPartial {
                    interval: next.interval().at_rollover(secs_until_rollover),
                    last_interval: current.interval().at_rollover(secs_until_rollover),
                    ease_factor,
                    review_kind,
                },
            ),
            None => None,
        }
    }

    /// The whole entry.
    pub open spec fn completed(
        self,
        usn: Usn,
        cid: CardID,
        button_chosen: u8,
        answered_at: TimestampMillis,
        taken_millis: u32,
    ) -> RevlogEntry {
        RevlogEntry {
            id: answered_at,
            cid,
            usn,
            button_chosen,
            interval: self.interval.logged(),
            last_interval: self.last_interval.logged(),
            ease_factor: self.ease_factor,
            taken_millis,
            review_kind: self.review_kind,
        }
    }

    /// Returns `None` for a preview: looking at a card is not logged.
    pub fn maybe_new(
        current: CardState,
        next: CardState,
        ease_factor: u32,
        secs_until_rollover: u32,
    ) -> (partial: Option<RevlogEntryPartial>)
        ensures
            partial == Self::of_change(current, next, ease_factor, secs_until_rollover),
            partial is None <==> current.is_preview(),
    {
        match current.revlog_kind() {
            Some(review_kind) => {
                let next_interval = next.interval_kind().maybe_as_days(secs_until_rollover);
                let current_interval = current.interval_kind().maybe_as_days(secs_until_rollover);
                Some(
                    RevlogEntryPartial {
                        interval: next_interval,
                        last_interval: current_interval,
                        ease_factor,
                        review_kind,
                    },
                )
            },
            None => None,
        }
    }

    /// Completes the entry with who answered what, and when.
    pub fn into_revlog_entry(
        self,
        usn: Usn,
        cid: CardID,
        button_chosen: u8,
        answered_at: TimestampMillis,
        taken_millis: u32,
    ) -> (entry: RevlogEntry)
        ensures
            entry == self.completed(usn, cid, button_chosen, answered_at, taken_millis),
    {
        RevlogEntry {
            id: answered_at,
            cid,
            usn,
            button_chosen,
            interval: self.interval.as_revlog_interval(),
            last_interval: self.last_interval.as_revlog_interval(),
            ease_factor: self.ease_factor,
            taken_millis,
            review_kind: self.review_kind,
        }
    }
}

} // verus!
