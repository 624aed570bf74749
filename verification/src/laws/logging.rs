//! States as the review log sees them, and the entries of the log.
use vstd::prelude::*;

use crate::ids::{CardID, TimestampMillis, Usn};
use crate::interval::IntervalKind;
use crate::revlog::{RevlogEntry, RevlogEntryPartial, RevlogReviewKind};
use crate::states::{
    CardState, FilteredState, LearnState, NormalState, PreviewState, RelearnState,
    ReschedulingFilterState,
};

verus! {

/// A new card comes back at once, a card in learning or relearning after the seconds of
/// its step, a review after its days.
pub proof fn law_normal_states_come_back(state: NormalState, interval: IntervalKind)
    requires
        call_ensures(NormalState::interval_kind, (state,), interval),
    ensures
        state is New ==> interval == IntervalKind::InSecs(0),
        state matches NormalState::Learning(learn) ==> interval == IntervalKind::InSecs(
            learn.scheduled_secs,
        ),
        state matches NormalState::Review(review) ==> interval == IntervalKind::InDays(
            review.scheduled_days,
        ),
        state matches NormalState::Relearning(relearn) ==> interval == IntervalKind::InSecs(
            relearn.learning.scheduled_secs,
        ),
{
}

/// A step comes back after its own seconds.
pub proof fn law_steps_come_back(
    learn: LearnState,
    relearn: RelearnState,
    preview: PreviewState,
    after_learn: IntervalKind,
    after_relearn: IntervalKind,
    after_preview: IntervalKind,
)
    requires
        call_ensures(LearnState::interval_kind, (learn,), after_learn),
        call_ensures(RelearnState::interval_kind, (relearn,), after_relearn),
        call_ensures(PreviewState::interval_kind, (preview,), after_preview),
    ensures
        after_learn == IntervalKind::InSecs(learn.scheduled_secs),
        after_relearn == IntervalKind::InSecs(relearn.learning.scheduled_secs),
        after_preview == IntervalKind::InSecs(preview.scheduled_secs),
{
}

/// A state comes back after the same time whether or not a rescheduling deck wraps it. A
/// preview comes back after its own delay, whatever it is a preview of.
pub proof fn law_wrapped_states_come_back(
    state: NormalState,
    scheduled_secs: u32,
    alone: IntervalKind,
    plain: IntervalKind,
    rescheduled: IntervalKind,
    previewed: IntervalKind,
)
    requires
        call_ensures(NormalState::interval_kind, (state,), alone),
        call_ensures(CardState::interval_kind, (CardState::Normal(state),), plain),
        call_ensures(
            CardState::interval_kind,
            (
                CardState::Filtered(
                    FilteredState::Rescheduling(ReschedulingFilterState { original_state: state }),
                ),
            ),
            rescheduled,
        ),
        call_ensures(
            CardState::interval_kind,
            (
                CardState::Filtered(
                    FilteredState::Preview(PreviewState { scheduled_secs, original_state: state }),
                ),
            ),
            previewed,
        ),
    ensures
        plain == alone,
        rescheduled == alone,
        previewed == IntervalKind::InSecs(scheduled_secs),
{
}

/// An answer to a new card or one in learning is logged as learning, one to a card in
/// relearning as relearning, and one to a review as a review: an early one if fewer days
/// have passed than were scheduled.
pub proof fn law_kinds_of_normal_states(state: NormalState, kind: RevlogReviewKind)
    requires
        call_ensures(NormalState::revlog_kind, (state,), kind),
    ensures
        kind is Learning <==> state is New || state is Learning,
        kind is Relearning <==> state is Relearning,
        kind is Review || kind is EarlyReview <==> state is Review,
        state matches NormalState::Review(review) ==> (kind is EarlyReview <==> review.elapsed_days
            < review.scheduled_days),
        !(kind is Manual),
{
}

/// An answer is logged as the same kind whether or not a rescheduling deck wraps the
/// state. An answer in a preview has no kind.
pub proof fn law_kinds_of_wrapped_states(
    state: NormalState,
    scheduled_secs: u32,
    alone: RevlogReviewKind,
    plain: Option<RevlogReviewKind>,
    rescheduled: Option<RevlogReviewKind>,
    previewed: Option<RevlogReviewKind>,
)
    requires
        call_ensures(NormalState::revlog_kind, (state,), alone),
        call_ensures(CardState::revlog_kind, (CardState::Normal(state),), plain),
        call_ensures(
            CardState::revlog_kind,
            (
                CardState::Filtered(
                    FilteredState::Rescheduling(ReschedulingFilterState { original_state: state }),
                ),
            ),
            rescheduled,
        ),
        call_ensures(
            CardState::revlog_kind,
            (
                CardState::Filtered(
                    FilteredState::Preview(PreviewState { scheduled_secs, original_state: state }),
                ),
            ),
            previewed,
        ),
    ensures
        plain == Some(alone),
        rescheduled == Some(alone),
        previewed is None,
{
}

/// A leech is a review, or a forgotten review, that is marked as one; a filtered deck
/// hides no leech.
pub proof fn law_leeches_are_marked_reviews(
    state: NormalState,
    scheduled_secs: u32,
    alone: bool,
    plain: bool,
    rescheduled: bool,
    previewed: bool,
)
    requires
        call_ensures(NormalState::leeched, (state,), alone),
        call_ensures(CardState::leeched, (CardState::Normal(state),), plain),
        call_ensures(
            CardState::leeched,
            (
                CardState::Filtered(
                    FilteredState::Rescheduling(ReschedulingFilterState { original_state: state }),
                ),
            ),
            rescheduled,
        ),
        call_ensures(
            CardState::leeched,
            (
                CardState::Filtered(
                    FilteredState::Preview(PreviewState { scheduled_secs, original_state: state }),
                ),
            ),
            previewed,
        ),
    ensures
        state is New || state is Learning ==> !alone,
        state matches NormalState::Review(review) ==> alone == review.leeched,
        state matches NormalState::Relearning(relearn) ==> alone == relearn.review.leeched,
        plain == alone,
        rescheduled == alone,
        previewed == alone,
{
}

/// An entry has the kind of the state that the card was in, the interval that lies ahead
/// of it and the one that it had, both as they count at the end of the day, and the ease
/// that is handed in. There is no entry exactly where the state has no kind.
pub proof fn law_entry_follows_change_of_state(
    current: CardState,
    next: CardState,
    ease_factor: u32,
    left: u32,
    partial: Option<RevlogEntryPartial>,
    kind: Option<RevlogReviewKind>,
    next_interval: IntervalKind,
    next_counted: IntervalKind,
    current_interval: IntervalKind,
    current_counted: IntervalKind,
)
    requires
        call_ensures(
            RevlogEntryPartial::maybe_new,
            (current, next, ease_factor, left),
            partial,
        ),
        call_ensures(CardState::revlog_kind, (current,), kind),
        call_ensures(CardState::interval_kind, (next,), next_interval),
        call_ensures(IntervalKind::maybe_as_days, (next_interval, left), next_counted),
        call_ensures(CardState::interval_kind, (current,), current_interval),
        call_ensures(IntervalKind::maybe_as_days, (current_interval, left), current_counted),
    ensures
        kind is None ==> partial is None,
        kind matches Some(kind) ==> {
            &&& partial matches Some(entry)
            &&& entry.review_kind == kind
            &&& entry.interval == next_counted
            &&& entry.last_interval == current_counted
            &&& entry.ease_factor == ease_factor
        },
{
}

/// A complete entry holds who answered what and when as it is handed in, and both
/// intervals as the log writes them.
pub proof fn law_entry_is_completed(
    partial: RevlogEntryPartial,
    usn: Usn,
    cid: CardID,
    button_chosen: u8,
    answered_at: TimestampMillis,
    taken_millis: u32,
    entry: RevlogEntry,
    interval: i32,
    last_interval: i32,
)
    requires
        call_ensures(
            RevlogEntryPartial::into_revlog_entry,
            (partial, usn, cid, button_chosen, answered_at, taken_millis),
            entry,
        ),
        call_ensures(IntervalKind::as_revlog_interval, (partial.interval,), interval),
        call_ensures(IntervalKind::as_revlog_interval, (partial.last_interval,), last_interval),
    ensures
        entry.id == answered_at,
        entry.cid == cid,
        entry.usn == usn,
        entry.button_chosen == button_chosen,
        entry.interval == interval,
        entry.last_interval == last_interval,
        entry.ease_factor == partial.ease_factor,
        entry.taken_millis == taken_millis,
        entry.review_kind == partial.review_kind,
{
}

} // verus!
