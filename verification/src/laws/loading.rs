//! What a session asks for, step by step, and what it makes of the replies.
//!
//! A session is followed through its calls: the stage that one call hands out is handed
//! to the next, together with what came of the request.
use vstd::prelude::*;

use crate::answering::{get_fuzz_seed, AnswerChanges, CardAnswer};
use crate::card::Card;
use crate::collection::{
    AnswerStage, AnswerStep, Collection, ContextStage, ContextStep, NextStatesStage,
    NextStatesStep,
};
use crate::deck::{Deck, DeckConf};
use crate::error::{AnkiError, InvalidInput};
use crate::ids::{CardID, DeckConfID, DeckID, NoteID, TimestampSecs, Usn};
use crate::requests::{Action, Event, Fetch, Reply};
use crate::states::CardState;
use crate::timing::SchedTimingToday;
use crate::updater::CardStateUpdater;

verus! {

/// The options of a card are looked up under the number that its deck gives for them, and
/// if it gives none, by way of the home deck.
pub proof fn law_options_are_found_by_deck(
    col: Collection,
    config_id: Option<DeckConfID>,
    home_deck_id: DeckID,
    fetch: Fetch,
)
    requires
        call_ensures(Collection::home_deck_config, (&col, config_id, home_deck_id), fetch),
    ensures
        config_id matches Some(config_id) ==> fetch == Fetch::DeckConfig(config_id),
        config_id is None ==> fetch == Fetch::Deck(home_deck_id),
{
}

/// A card in a normal deck is loaded with the day, its deck, the options that the deck
/// names, or those that replace them if they are gone, and the time; all are looked up in
/// this order, and the updater holds what was found.
pub proof fn law_card_in_normal_deck_is_loaded(
    col: Collection,
    card: Card,
    timing: SchedTimingToday,
    deck: Deck,
    config: Option<DeckConf>,
    default_config: DeckConf,
    now: TimestampSecs,
    seed: Option<u64>,
    asked_deck: ContextStep,
    asked_config: ContextStep,
    asked_default: ContextStep,
    asked_clock: ContextStep,
    loaded: ContextStep,
)
    requires
        deck.kind is Normal,
        call_ensures(
            Collection::answer_context,
            (&col, ContextStage::Timing { card }, Reply::TimingToday(Ok(timing))),
            asked_deck,
        ),
        call_ensures(
            Collection::answer_context,
            (&col, asked_deck->Fetch_0, Reply::Deck(Ok(Some(deck)))),
            asked_config,
        ),
        call_ensures(
            Collection::answer_context,
            (&col, asked_config->Fetch_0, Reply::DeckConfig(Ok(config))),
            asked_default,
        ),
        config is None ==> call_ensures(
            Collection::answer_context,
            (&col, asked_default->Fetch_0, Reply::DefaultDeckConfig(default_config)),
            asked_clock,
        ),
        config is Some ==> asked_clock == asked_default,
        call_ensures(
            Collection::answer_context,
            (&col, asked_clock->Fetch_0, Reply::Clock(now)),
            loaded,
        ),
        call_ensures(get_fuzz_seed, (&card, col.testing), seed),
    ensures
        asked_deck is Fetch && asked_deck->Fetch_1 == Fetch::Deck(card.deck_id),
        asked_config is Fetch && asked_config->Fetch_1 == Fetch::DeckConfig(
            deck.kind->Normal_0.config_id,
        ),
        config is None ==> asked_default is Fetch && asked_default->Fetch_1
            == Fetch::DefaultDeckConfig,
        asked_clock is Fetch && asked_clock->Fetch_1 == Fetch::Clock,
        loaded matches ContextStep::Ready(updater) && {
            &&& updater.card == card
            &&& updater.deck == deck
            &&& config matches Some(config) ==> updater.config == config
            &&& config is None ==> updater.config == default_config
            &&& updater.timing == timing
            &&& updater.now == now
            &&& updater.fuzz_seed == seed
        },
{
}

/// A card in a filtered deck is loaded like one in a normal deck, with the options that
/// its home deck names; the updater holds the filtered deck.
pub proof fn law_card_in_filtered_deck_is_loaded(
    col: Collection,
    card: Card,
    timing: SchedTimingToday,
    deck: Deck,
    home: Deck,
    config: Option<DeckConf>,
    default_config: DeckConf,
    now: TimestampSecs,
    seed: Option<u64>,
    asked_deck: ContextStep,
    asked_home: ContextStep,
    asked_config: ContextStep,
    asked_default: ContextStep,
    asked_clock: ContextStep,
    loaded: ContextStep,
)
    requires
        deck.kind is Filtered,
        home.kind is Normal,
        call_ensures(
            Collection::answer_context,
            (&col, ContextStage::Timing { card }, Reply::TimingToday(Ok(timing))),
            asked_deck,
        ),
        call_ensures(
            Collection::answer_context,
            (&col, asked_deck->Fetch_0, Reply::Deck(Ok(Some(deck)))),
            asked_home,
        ),
        call_ensures(
            Collection::answer_context,
            (&col, asked_home->Fetch_0, Reply::Deck(Ok(Some(home)))),
            asked_config,
        ),
        call_ensures(
            Collection::answer_context,
            (&col, asked_config->Fetch_0, Reply::DeckConfig(Ok(config))),
            asked_default,
        ),
        config is None ==> call_ensures(
            Collection::answer_context,
            (&col, asked_default->Fetch_0, Reply::DefaultDeckConfig(default_config)),
            asked_clock,
        ),
        config is Some ==> asked_clock == asked_default,
        call_ensures(
            Collection::answer_context,
            (&col, asked_clock->Fetch_0, Reply::Clock(now)),
            loaded,
        ),
        call_ensures(get_fuzz_seed, (&card, col.testing), seed),
    ensures
        asked_deck is Fetch && asked_deck->Fetch_1 == Fetch::Deck(card.deck_id),
        asked_home is Fetch && asked_home->Fetch_1 == Fetch::Deck(card.original_deck_id),
        asked_config is Fetch && asked_config->Fetch_1 == Fetch::DeckConfig(
            home.kind->Normal_0.config_id,
        ),
        config is None ==> asked_default is Fetch && asked_default->Fetch_1
            == Fetch::DefaultDeckConfig,
        asked_clock is Fetch && asked_clock->Fetch_1 == Fetch::Clock,
        loaded matches ContextStep::Ready(updater) && {
            &&& updater.card == card
            &&& updater.deck == deck
            &&& config matches Some(config) ==> updater.config == config
            &&& config is None ==> updater.config == default_config
            &&& updater.timing == timing
            &&& updater.now == now
            &&& updater.fuzz_seed == seed
        },
{
}

/// The loading ends without a result if a deck is missing, or if the home deck of a card
/// in a filtered deck is filtered too.
pub proof fn law_loading_needs_decks_and_options(
    col: Collection,
    card: Card,
    timing: SchedTimingToday,
    deck: Deck,
    home: Deck,
    no_deck: ContextStep,
    no_home: ContextStep,
    no_options: ContextStep,
)
    requires
        home.kind is Filtered,
        call_ensures(
            Collection::answer_context,
            (&col, ContextStage::Deck { card, timing }, Reply::Deck(Ok(None))),
            no_deck,
        ),
        call_ensures(
            Collection::answer_context,
            (&col, ContextStage::HomeDeck { card, timing, deck }, Reply::Deck(Ok(None))),
            no_home,
        ),
        call_ensures(
            Collection::answer_context,
            (&col, ContextStage::HomeDeck { card, timing, deck }, Reply::Deck(Ok(Some(home)))),
            no_options,
        ),
    ensures
        no_deck == ContextStep::Failed(AnkiError::NotFound),
        no_home == ContextStep::Failed(AnkiError::NotFound),
        no_options == ContextStep::Failed(AnkiError::NotFound),
{
}

/// Whatever keeps something from being looked up ends the loading, and is handed on.
pub proof fn law_loading_hands_failures_on(
    col: Collection,
    card: Card,
    timing: SchedTimingToday,
    deck: Deck,
    error: AnkiError,
    no_timing: ContextStep,
    no_deck: ContextStep,
    no_home: ContextStep,
    no_config: ContextStep,
)
    requires
        call_ensures(
            Collection::answer_context,
            (&col, ContextStage::Timing { card }, Reply::TimingToday(Err(error))),
            no_timing,
        ),
        call_ensures(
            Collection::answer_context,
            (&col, ContextStage::Deck { card, timing }, Reply::Deck(Err(error))),
            no_deck,
        ),
        call_ensures(
            Collection::answer_context,
            (&col, ContextStage::HomeDeck { card, timing, deck }, Reply::Deck(Err(error))),
            no_home,
        ),
        call_ensures(
            Collection::answer_context,
            (&col, ContextStage::Config { card, timing, deck }, Reply::DeckConfig(Err(error))),
            no_config,
        ),
    ensures
        no_timing == ContextStep::Failed(error),
        no_deck == ContextStep::Failed(error),
        no_home == ContextStep::Failed(error),
        no_config == ContextStep::Failed(error),
{
}

/// Each stage of the loading takes one kind of reply, and any other is misplaced.
pub proof fn law_loading_takes_one_kind_of_reply(
    col: Collection,
    stage: ContextStage,
    reply: Reply,
    step: ContextStep,
)
    requires
        call_ensures(Collection::answer_context, (&col, stage, reply), step),
    ensures
        step is Misplaced <==> match stage {
            ContextStage::Timing { .. } => !(reply is TimingToday),
            ContextStage::Deck { .. } | ContextStage::HomeDeck { .. } => !(reply is Deck),
            ContextStage::Config { .. } => !(reply is DeckConfig),
            ContextStage::DefaultConfig { .. } => !(reply is DefaultDeckConfig),
            ContextStage::Clock { .. } => !(reply is Clock),
        },
        call_requires(Collection::answer_context, (&col, stage, reply)),
{
}

/// A look at the next states asks for the card and then for the day, where the loading of
/// the card's surroundings starts. If there is no card, or it cannot be looked up, that is
/// the end.
pub proof fn law_next_states_start_with_the_card(
    col: Collection,
    cid: CardID,
    card: Card,
    error: AnkiError,
    asked_card: NextStatesStep,
    asked_timing: NextStatesStep,
    no_card: NextStatesStep,
    failed: NextStatesStep,
)
    requires
        call_ensures(
            Collection::get_next_card_states,
            (&col, cid, NextStatesStage::Asked, Event::Asked),
            asked_card,
        ),
        call_ensures(
            Collection::get_next_card_states,
            (&col, cid, asked_card->Fetch_0, Event::Reply(Reply::Card(Ok(Some(card))))),
            asked_timing,
        ),
        call_ensures(
            Collection::get_next_card_states,
            (&col, cid, asked_card->Fetch_0, Event::Reply(Reply::Card(Ok(None)))),
            no_card,
        ),
        call_ensures(
            Collection::get_next_card_states,
            (&col, cid, asked_card->Fetch_0, Event::Reply(Reply::Card(Err(error)))),
            failed,
        ),
    ensures
        asked_card is Fetch && asked_card->Fetch_1 == Fetch::Card(cid),
        asked_timing == NextStatesStep::Fetch(
            NextStatesStage::Context(ContextStage::Timing { card }),
            Fetch::TimingToday,
        ),
        no_card == NextStatesStep::Failed(AnkiError::NotFound),
        failed == NextStatesStep::Failed(error),
{
}

/// A look at the next states loads the surroundings of a card and hands on what comes of
/// it. It is out of range exactly if the state of the loaded card cannot be asked for.
pub proof fn law_next_states_load_surroundings(
    col: Collection,
    cid: CardID,
    stage: ContextStage,
    reply: Reply,
    loading: ContextStep,
    step: NextStatesStep,
    known: bool,
)
    requires
        call_ensures(Collection::answer_context, (&col, stage, reply), loading),
        call_ensures(
            Collection::get_next_card_states,
            (&col, cid, NextStatesStage::Context(stage), Event::Reply(reply)),
            step,
        ),
        loading matches ContextStep::Ready(updater) ==> call_ensures(
            CardStateUpdater::has_card_state,
            (&updater,),
            known,
        ),
    ensures
        match loading {
            ContextStep::Fetch(stage, fetch) => step == NextStatesStep::Fetch(
                NextStatesStage::Context(stage),
                fetch,
            ),
            ContextStep::Ready(updater) => step == if known {
                NextStatesStep::Ready(updater)
            } else {
                NextStatesStep::OutOfRange
            },
            ContextStep::Failed(error) => step == NextStatesStep::Failed(error),
            ContextStep::Misplaced => step is Misplaced,
        },
{
}

/// A look at the next states starts when it is asked for, goes on with replies, and takes
/// nothing else.
pub proof fn law_next_states_take_replies(
    col: Collection,
    cid: CardID,
    stage: NextStatesStage,
    event: Event,
    step: NextStatesStep,
)
    requires
        call_ensures(Collection::get_next_card_states, (&col, cid, stage, event), step),
    ensures
        stage is Asked ==> (step is Misplaced <==> !(event is Asked)),
        stage is Card ==> (step is Misplaced <==> !(event matches Event::Reply(Reply::Card(_)))),
        stage is Context && !(event is Reply) ==> step is Misplaced,
        call_requires(Collection::get_next_card_states, (&col, cid, stage, event)),
{
}

/// An answer opens a transaction, asks for its card, then for the number that changes are
/// written under, and then for the day, where the loading of the card's surroundings
/// starts.
pub proof fn law_answer_starts_with_transaction_and_card(
    col: Collection,
    answer: CardAnswer,
    card: Card,
    usn: Usn,
    opened: AnswerStep,
    asked_card: AnswerStep,
    asked_usn: AnswerStep,
    asked_timing: AnswerStep,
)
    requires
        call_ensures(
            Collection::answer_card,
            (&col, &answer, AnswerStage::Asked, Event::Asked),
            opened,
        ),
        call_ensures(
            Collection::answer_card,
            (&col, &answer, opened->Continue_0, Event::Done(Ok(()))),
            asked_card,
        ),
        call_ensures(
            Collection::answer_card,
            (
                &col,
                &answer,
                asked_card->Continue_0,
                Event::Reply(Reply::Card(Ok(Some(card)))),
            ),
            asked_usn,
        ),
        call_ensures(
            Collection::answer_card,
            (&col, &answer, asked_usn->Continue_0, Event::Reply(Reply::Usn(Ok(usn)))),
            asked_timing,
        ),
    ensures
        opened is Continue && opened->Continue_1 == Action::Begin,
        asked_card is Continue && asked_card->Continue_1 == Action::Fetch(
            Fetch::Card(answer.card_id),
        ),
        asked_usn is Continue && asked_usn->Continue_1 == Action::Fetch(Fetch::Usn),
        asked_timing == AnswerStep::Continue(
            AnswerStage::Context { usn, stage: ContextStage::Timing { card } },
            Action::Fetch(Fetch::TimingToday),
        ),
{
}

/// If no transaction can be opened the answer fails; if there is no card, or the card or
/// the number that changes are written under cannot be looked up, it is rolled back.
pub proof fn law_answer_start_can_fail(
    col: Collection,
    answer: CardAnswer,
    card: Card,
    error: AnkiError,
    not_opened: AnswerStep,
    no_card: AnswerStep,
    card_failed: AnswerStep,
    usn_failed: AnswerStep,
)
    requires
        call_ensures(
            Collection::answer_card,
            (&col, &answer, AnswerStage::Opening, Event::Done(Err(error))),
            not_opened,
        ),
        call_ensures(
            Collection::answer_card,
            (&col, &answer, AnswerStage::Card, Event::Reply(Reply::Card(Ok(None)))),
            no_card,
        ),
        call_ensures(
            Collection::answer_card,
            (&col, &answer, AnswerStage::Card, Event::Reply(Reply::Card(Err(error)))),
            card_failed,
        ),
        call_ensures(
            Collection::answer_card,
            (&col, &answer, AnswerStage::Usn { card }, Event::Reply(Reply::Usn(Err(error)))),
            usn_failed,
        ),
    ensures
        not_opened == AnswerStep::Failed(error),
        no_card == AnswerStep::Rollback(AnkiError::NotFound),
        card_failed == AnswerStep::Rollback(error),
        usn_failed == AnswerStep::Rollback(error),
{
}

/// An answer loads the surroundings of its card and goes on only if the card is in the
/// state that the answer was given for; it then asks for the time when it takes effect.
/// If the card is in another state, both states are told.
pub proof fn law_answer_loads_surroundings(
    col: Collection,
    answer: CardAnswer,
    usn: Usn,
    stage: ContextStage,
    reply: Reply,
    loading: ContextStep,
    step: AnswerStep,
    known: bool,
    current: CardState,
)
    requires
        call_ensures(Collection::answer_context, (&col, stage, reply), loading),
        call_ensures(
            Collection::answer_card,
            (&col, &answer, AnswerStage::Context { usn, stage }, Event::Reply(reply)),
            step,
        ),
        loading matches ContextStep::Ready(updater) ==> call_ensures(
            CardStateUpdater::has_card_state,
            (&updater,),
            known,
        ) && (known ==> call_ensures(CardStateUpdater::current_card_state, (&updater,), current)),
    ensures
        match loading {
            ContextStep::Fetch(stage, fetch) => step == AnswerStep::Continue(
                AnswerStage::Context { usn, stage },
                Action::Fetch(fetch),
            ),
            ContextStep::Ready(updater) => {
                &&& !known ==> step is OutOfRange
                &&& known && current != answer.current_state ==> step == AnswerStep::Rollback(
                    AnkiError::InvalidInput(
                        InvalidInput::CardModified { current, answered: answer.current_state },
                    ),
                )
                &&& known && current == answer.current_state ==> step == AnswerStep::Continue(
                    AnswerStage::Clock { usn, updater },
                    Action::Fetch(Fetch::Clock),
                )
            },
            ContextStep::Failed(error) => step == AnswerStep::Rollback(error),
            ContextStep::Misplaced => step is Misplaced,
        },
{
}

/// At the time when an answer takes effect, all that it changes is worked out for the
/// loaded card and then written; it is rolled back if it is refused, and is out of range
/// if it cannot be given.
pub proof fn law_answer_takes_effect(
    col: Collection,
    answer: CardAnswer,
    usn: Usn,
    updater: CardStateUpdater,
    clock: TimestampSecs,
    step: AnswerStep,
    possible: bool,
    applied: Result<AnswerChanges, AnkiError>,
)
    requires
        call_ensures(
            Collection::answer_card,
            (
                &col,
                &answer,
                AnswerStage::Clock { usn, updater },
                Event::Reply(Reply::Clock(clock)),
            ),
            step,
        ),
        call_ensures(
            CardStateUpdater::can_apply,
            (&updater, answer.current_state, answer.new_state, clock),
            possible,
        ),
        possible ==> call_ensures(CardAnswer::apply, (&answer, updater, usn, clock), applied),
    ensures
        !possible ==> step is OutOfRange,
        possible ==> match applied {
            Err(error) => step == AnswerStep::Rollback(error),
            Ok(changes) => match changes.entry {
                Some(entry) => step == AnswerStep::Continue(
                    AnswerStage::Entry { changes },
                    Action::AddRevlogEntry(entry),
                ),
                None => step == AnswerStep::Continue(
                    AnswerStage::Stats { changes },
                    Action::UpdateDeckStats(changes.stats),
                ),
            },
        },
{
}

/// After the entry in the log the statistics are written, then the card, and then the tag
/// if there is one to be added; with that the answer is complete.
pub proof fn law_answer_writes_in_order(
    col: Collection,
    answer: CardAnswer,
    changes: AnswerChanges,
    wrote_entry: AnswerStep,
    wrote_stats: AnswerStep,
    wrote_card: AnswerStep,
    wrote_tag: AnswerStep,
)
    requires
        call_ensures(
            Collection::answer_card,
            (&col, &answer, AnswerStage::Entry { changes }, Event::Done(Ok(()))),
            wrote_entry,
        ),
        call_ensures(
            Collection::answer_card,
            (&col, &answer, wrote_entry->Continue_0, Event::Done(Ok(()))),
            wrote_stats,
        ),
        call_ensures(
            Collection::answer_card,
            (&col, &answer, wrote_stats->Continue_0, Event::Done(Ok(()))),
            wrote_card,
        ),
        changes.leech is Some ==> call_ensures(
            Collection::answer_card,
            (&col, &answer, wrote_card->Continue_0, Event::Done(Ok(()))),
            wrote_tag,
        ),
    ensures
        wrote_entry == AnswerStep::Continue(
            AnswerStage::Stats { changes },
            Action::UpdateDeckStats(changes.stats),
        ),
        wrote_stats is Continue && wrote_stats->Continue_1 == Action::UpdateCard(changes.card),
        changes.leech is None ==> wrote_card is Commit,
        changes.leech matches Some(note_id) ==> {
            &&& wrote_card is Continue
            &&& wrote_card->Continue_1 == Action::AddLeechTag(note_id)
            &&& wrote_tag is Commit
        },
{
}

/// A write that fails takes back all that the answer has written, and is the reason that
/// is told.
pub proof fn law_failed_write_takes_all_back(
    col: Collection,
    answer: CardAnswer,
    stage: AnswerStage,
    error: AnkiError,
    step: AnswerStep,
)
    requires
        stage is Entry || stage is Stats || stage is Update || stage is Tag,
        call_ensures(
            Collection::answer_card,
            (&col, &answer, stage, Event::Done(Err(error))),
            step,
        ),
    ensures
        step == AnswerStep::Rollback(error),
{
}

/// Each stage of an answer takes one kind of event, and any other is misplaced. Inside a
/// transaction all goes on without it as it does with it, but no other is opened.
pub proof fn law_answer_takes_one_kind_of_event(
    col: Collection,
    answer: CardAnswer,
    stage: AnswerStage,
    event: Event,
    step: AnswerStep,
    inner: AnswerStep,
)
    requires
        call_ensures(Collection::answer_card, (&col, &answer, stage, event), step),
        call_ensures(Collection::answer_card_inner, (&col, &answer, stage, event), inner),
    ensures
        stage is Asked ==> (step is Misplaced <==> !(event is Asked)) && inner is Misplaced,
        stage is Opening ==> (step is Misplaced <==> !(event is Done)) && inner is Misplaced,
        !(stage is Asked) && !(stage is Opening) ==> inner == step,
        stage is Card ==> (step is Misplaced <==> !(event matches Event::Reply(Reply::Card(_)))),
        stage is Usn ==> (step is Misplaced <==> !(event matches Event::Reply(Reply::Usn(_)))),
        stage is Clock ==> (step is Misplaced <==> !(event matches Event::Reply(Reply::Clock(_)))),
        stage is Context && !(event is Reply) ==> step is Misplaced,
        stage is Entry || stage is Stats || stage is Update || stage is Tag ==> (step is Misplaced
            <==> !(event is Done)),
        call_requires(Collection::answer_card, (&col, &answer, stage, event)),
        call_requires(Collection::answer_card_inner, (&col, &answer, stage, event)),
{
}

/// The note of a leech is tagged as the last write of an answer.
pub proof fn law_tag_is_written_last(
    col: Collection,
    answer: CardAnswer,
    note_id: NoteID,
    tagging: AnswerStep,
    tagged: AnswerStep,
)
    requires
        call_ensures(Collection::add_leech_tag, (&col, note_id), tagging),
        call_ensures(
            Collection::answer_card,
            (&col, &answer, tagging->Continue_0, Event::Done(Ok(()))),
            tagged,
        ),
    ensures
        tagging is Continue && tagging->Continue_1 == Action::AddLeechTag(note_id),
        tagged is Commit,
{
}

/// The two sessions load the same surroundings for a card: they ask for the same, whatever
/// the replies.
pub proof fn law_sessions_load_alike(
    col: Collection,
    answer: CardAnswer,
    cid: CardID,
    usn: Usn,
    stage: ContextStage,
    reply: Reply,
    offering: NextStatesStep,
    answering: AnswerStep,
)
    requires
        call_ensures(
            Collection::get_next_card_states,
            (&col, cid, NextStatesStage::Context(stage), Event::Reply(reply)),
            offering,
        ),
        call_ensures(
            Collection::answer_card,
            (&col, &answer, AnswerStage::Context { usn, stage }, Event::Reply(reply)),
            answering,
        ),
    ensures
        offering matches NextStatesStep::Fetch(NextStatesStage::Context(next), fetch) ==> answering
            == AnswerStep::Continue(AnswerStage::Context { usn, stage: next }, Action::Fetch(fetch)),
        offering matches NextStatesStep::Failed(error) ==> answering == AnswerStep::Rollback(error),
        offering is OutOfRange ==> answering is OutOfRange,
        offering is Misplaced <==> answering is Misplaced,
        offering is Ready ==> answering is Rollback || (answering matches AnswerStep::Continue(
            AnswerStage::Clock { usn: held, updater },
            Action::Fetch(Fetch::Clock),
        ) && held == usn && offering == NextStatesStep::Ready(updater)),
{
}

} // verus!
