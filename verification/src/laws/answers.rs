//! What follows from an answer: its entry in the log, its statistics, the card, the tag.
use vstd::prelude::*;

use crate::answering::{get_fuzz_seed, AnswerChanges, CardAnswer, Rating};
use crate::card::Card;
use crate::collection::push_leech_tag;
use crate::error::{AnkiError, InvalidInput};
use crate::ids::{TimestampSecs, Usn};
use crate::laws::moves::{leads_to, only_looks, Logged};
use crate::laws::numbers::same_low_bits;
use crate::revlog::{RevlogEntry, RevlogEntryPartial};
use crate::states::{CardState, NormalState};
use crate::updater::CardStateUpdater;

verus! {

/// The buttons are numbered from one to four, from the one for a forgotten card to the
/// one for an easy card.
pub proof fn law_buttons_are_numbered(rating: Rating, number: u8)
    requires
        call_ensures(Rating::as_number, (rating,), number),
    ensures
        1 <= number <= 4,
        number == 1 <==> rating is Again,
        number == 2 <==> rating is Hard,
        number == 3 <==> rating is Good,
        number == 4 <==> rating is Easy,
        call_requires(Rating::as_number, (rating,)),
{
}

/// The seed of a card is its number and the times it was answered, added up, so that the
/// next answer to the card has the next seed. While testing there is none.
pub proof fn law_seed_moves_on_with_each_answer(
    card: Card,
    answered: Card,
    testing: bool,
    seed: Option<u64>,
    next_seed: Option<u64>,
)
    requires
        answered.id == card.id,
        answered.reps == card.reps + 1,
        call_ensures(get_fuzz_seed, (&card, testing), seed),
        call_ensures(get_fuzz_seed, (&answered, testing), next_seed),
    ensures
        seed is None <==> testing,
        seed matches Some(seed) ==> {
            &&& (seed - card.id.0 - card.reps) % 0x1_0000_0000_0000_0000 == 0
            &&& next_seed matches Some(next_seed) && (next_seed == seed + 1 || (next_seed == 0
                && seed == u64::MAX))
        },
        call_requires(get_fuzz_seed, (&card, testing)),
{
}

/// What an answer writes back is the card as the answer moves it, beside the card as it
/// was. If the card is not moved, nothing is written and the reason is handed on.
pub proof fn law_answer_moves_its_card(
    moved: &mut CardStateUpdater,
    answer: CardAnswer,
    updater: CardStateUpdater,
    usn: Usn,
    clock: TimestampSecs,
    logged: Logged,
    applied: Result<AnswerChanges, AnkiError>,
)
    requires
        *old(moved) == updater,
        call_ensures(
            CardStateUpdater::apply_study_state,
            (moved, answer.current_state, answer.new_state, clock),
            logged,
        ),
        call_ensures(CardAnswer::apply, (&answer, updater, usn, clock), applied),
    ensures
        logged matches Err(error) ==> applied == Err::<AnswerChanges, _>(error),
        logged matches Ok(partial) ==> {
            &&& applied matches Ok(changes)
            &&& changes.card.card == final(moved).card
            &&& changes.card.original == updater.card
            &&& changes.card.usn == usn
            &&& changes.entry is None <==> partial is None
        },
{
}

/// The entry of an answer is the logged change of state, completed with the card, the
/// button, the time and the time taken of the answer.
pub proof fn law_answer_completes_its_entry(
    moved: &mut CardStateUpdater,
    answer: CardAnswer,
    updater: CardStateUpdater,
    usn: Usn,
    clock: TimestampSecs,
    partial: RevlogEntryPartial,
    number: u8,
    entry: RevlogEntry,
    applied: Result<AnswerChanges, AnkiError>,
)
    requires
        *old(moved) == updater,
        call_ensures(
            CardStateUpdater::apply_study_state,
            (moved, answer.current_state, answer.new_state, clock),
            Ok(Some(partial)),
        ),
        call_ensures(Rating::as_number, (answer.rating,), number),
        call_ensures(
            RevlogEntryPartial::into_revlog_entry,
            (
                partial,
                usn,
                answer.card_id,
                number,
                answer.answered_at,
                answer.milliseconds_taken,
            ),
            entry,
        ),
        call_ensures(CardAnswer::apply, (&answer, updater, usn, clock), applied),
    ensures
        applied matches Ok(changes) && changes.entry == Some(entry),
        entry.id == answer.answered_at,
        entry.cid == answer.card_id,
        entry.usn == usn,
        entry.taken_millis == answer.milliseconds_taken,
        entry.ease_factor == partial.ease_factor,
        entry.review_kind == partial.review_kind,
{
}

/// An answer that was not given in a preview is logged, with its kind following from the
/// state alone: learning for a new card and one in learning, relearning for a forgotten
/// one, and a review, early or not, for nothing but a review. An answer in a preview is
/// not logged.
pub proof fn law_answer_is_logged_by_its_state(
    answer: CardAnswer,
    updater: CardStateUpdater,
    usn: Usn,
    clock: TimestampSecs,
    changes: AnswerChanges,
)
    requires
        call_ensures(CardAnswer::apply, (&answer, updater, usn, clock), Ok(changes)),
    ensures
        only_looks(answer.current_state) <==> changes.entry is None,
        changes.entry matches Some(entry) ==> forall|state: NormalState| #[trigger]
            leads_to(answer.current_state, state) ==> {
                &&& entry.review_kind is Learning <==> state is New || state is Learning
                &&& entry.review_kind is Relearning <==> state is Relearning
                &&& entry.review_kind is Review || entry.review_kind is EarlyReview
                    <==> state is Review
                &&& state matches NormalState::Review(review) ==> (entry.review_kind is EarlyReview
                    <==> review.elapsed_days < review.scheduled_days)
            },
{
}

/// An answer counts as a new card in the statistics exactly if it was given to a card that
/// is new outside of any filtered deck, and as a review exactly if it was given to a
/// review there. All answers count their time, on the day and for the deck of the card.
pub proof fn law_answer_counts_in_statistics(
    answer: CardAnswer,
    updater: CardStateUpdater,
    usn: Usn,
    clock: TimestampSecs,
    changes: AnswerChanges,
)
    requires
        call_ensures(CardAnswer::apply, (&answer, updater, usn, clock), Ok(changes)),
    ensures
        changes.stats.stats.new_delta == 1 <==> (answer.current_state matches CardState::Normal(
            NormalState::New(_),
        )),
        changes.stats.stats.new_delta == 0 || changes.stats.stats.new_delta == 1,
        changes.stats.stats.review_delta == 1 <==> (answer.current_state matches CardState::Normal(
            NormalState::Review(_),
        )),
        changes.stats.stats.review_delta == 0 || changes.stats.stats.review_delta == 1,
        answer.current_state is Filtered ==> changes.stats.stats.new_delta == 0
            && changes.stats.stats.review_delta == 0,
        same_low_bits(
            changes.stats.stats.millisecond_delta as int,
            answer.milliseconds_taken as int,
        ),
        changes.stats.stats.deck_id == updater.deck.id.0,
        changes.stats.today == updater.timing.days_elapsed,
        changes.stats.usn == usn,
{
}

/// The note of a card is tagged exactly if the answer leads to the state of a leech, in
/// or out of a filtered deck, whether or not the card is put on hold.
pub proof fn law_answer_tags_leeches(
    answer: CardAnswer,
    updater: CardStateUpdater,
    usn: Usn,
    clock: TimestampSecs,
    changes: AnswerChanges,
    leeched: bool,
)
    requires
        call_ensures(CardAnswer::apply, (&answer, updater, usn, clock), Ok(changes)),
        call_ensures(CardState::leeched, (answer.new_state,), leeched),
    ensures
        leeched ==> changes.leech == Some(updater.card.note_id),
        !leeched ==> changes.leech is None,
{
}

/// What an answer changes can be worked out wherever the card can be moved.
pub proof fn law_answer_can_be_applied(
    answer: CardAnswer,
    updater: CardStateUpdater,
    usn: Usn,
    clock: TimestampSecs,
)
    requires
        call_ensures(
            CardStateUpdater::can_apply,
            (&updater, answer.current_state, answer.new_state, clock),
            true,
        ),
    ensures
        call_requires(CardAnswer::apply, (&answer, updater, usn, clock)),
{
}

/// The two refusals are told apart by their words.
pub proof fn law_refusals_have_words(
    current: CardState,
    answered: CardState,
    modified: &'static str,
    misled: &'static str,
)
    requires
        call_ensures(
            InvalidInput::summary,
            (&InvalidInput::CardModified { current, answered },),
            modified,
        ),
        call_ensures(InvalidInput::summary, (&InvalidInput::NotInFilteredDeck,), misled),
    ensures
        modified@ == "card was modified"@,
        misled@ == "card answering can't transition into filtered state"@,
        modified@ != misled@,
{
    reveal_strlit("card was modified");
    reveal_strlit("card answering can't transition into filtered state");
    assert(modified@.len() != misled@.len());
}

/// Tagging a leech keeps all the tags that a note has, in their order, and puts one
/// behind them.
pub proof fn law_tagging_keeps_tags(tags: &mut Vec<String>, index: int)
    requires
        call_ensures(push_leech_tag, (tags,), ()),
    ensures
        final(tags)@.len() == old(tags)@.len() + 1,
        0 <= index < old(tags)@.len() ==> final(tags)@[index] == old(tags)@[index],
        final(tags)@[old(tags)@.len() as int]@ == "leech"@,
        call_requires(push_leech_tag, (tags,)),
{
    assert(0 <= index < old(tags)@.len() ==> final(tags)@.drop_last()[index]
        == final(tags)@[index]);
}

} // verus!
