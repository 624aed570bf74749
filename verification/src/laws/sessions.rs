//! How study sessions run.
use vstd::prelude::*;

use crate::answering::{AnswerChanges, CardAnswer};
use crate::applying::not_in_filtered_deck;
use crate::card::Card;
use crate::collection::{
    card_modified, AnswerStage, AnswerStep, Collection, ContextStage, ContextStep,
    NextStatesStage, NextStatesStep,
};
use crate::deck::{Deck, DeckConf};
use crate::error::AnkiError;
use crate::ids::{CardID, DeckConfID, DeckID, TimestampSecs, Usn};
use crate::requests::{Action, Event, Fetch, Reply};
use crate::timing::SchedTimingToday;
use crate::updater::CardStateUpdater;

verus! {

/// Each request that an answer makes is met by any event that can come of it, and by
/// no other.
#[verifier::rlimit(50)]
pub proof fn law_answer_waits_for_what_it_asked(
    col: Collection,
    answer: CardAnswer,
    before: AnswerStage,
    cause: Event,
    event: Event,
)
    ensures
        col.answer_next(answer, before, cause) matches AnswerStep::Continue(stage, action) ==> (
        col.answer_next(answer, stage, event) is Misplaced <==> !event.answers(action)),
{
}

/// Each request of a look at the next states is met by any reply to it, and by nothing
/// else.
pub proof fn law_next_states_wait_for_what_they_asked(
    col: Collection,
    cid: CardID,
    before: NextStatesStage,
    cause: Event,
    event: Event,
)
    ensures
        col.next_states_next(cid, before, cause) matches NextStatesStep::Fetch(stage, fetch) ==> (
        col.next_states_next(cid, stage, event) is Misplaced <==> !event.answers(
            Action::Fetch(fetch),
        )),
{
}

/// Whatever the keeper fails at ends the answer with that failure, and takes back what
/// was written.
pub proof fn law_failure_ends_answer(
    col: Collection,
    answer: CardAnswer,
    stage: AnswerStage,
    event: Event,
    error: AnkiError,
)
    requires
        event.failure() == Some(error),
        !(col.answer_next(answer, stage, event) is Misplaced),
    ensures
        col.answer_next(answer, stage, event) == if stage is Opening {
            AnswerStep::Failed(error)
        } else {
            AnswerStep::Rollback(error)
        },
{
}

/// Whatever the keeper fails at ends a look at the next states with that failure.
pub proof fn law_failure_ends_next_states(
    col: Collection,
    cid: CardID,
    stage: NextStatesStage,
    event: Event,
    error: AnkiError,
)
    requires
        event.failure() == Some(error),
        !(col.next_states_next(cid, stage, event) is Misplaced),
    ensures
        col.next_states_next(cid, stage, event) == NextStatesStep::Failed(error),
{
}

/// Once an answer has written something it reads no more, and once it has read
/// something it does not open a transaction again.
pub proof fn law_reads_come_before_writes(
    col: Collection,
    answer: CardAnswer,
    before: AnswerStage,
    cause: Event,
    event: Event,
)
    ensures
        col.answer_next(answer, before, cause) matches AnswerStep::Continue(stage, action) ==> (
        col.answer_next(answer, stage, event) matches AnswerStep::Continue(_, following) ==> {
            &&& action.writes() ==> following.writes()
            &&& following != Action::Begin
        }),
{
}

/// The replies that the loading of a card's surroundings can still wait for.
pub open spec fn context_replies_left(stage: ContextStage) -> nat {
    match stage {
        ContextStage::Timing { .. } => 6,
        ContextStage::Deck { .. } => 5,
        ContextStage::HomeDeck { .. } => 4,
        ContextStage::Config { .. } => 3,
        ContextStage::DefaultConfig { .. } => 2,
        ContextStage::Clock { .. } => 1,
    }
}

/// The events that an answer can still wait for.
pub open spec fn answer_events_left(stage: AnswerStage) -> nat {
    match stage {
        AnswerStage::Asked => 15,
        AnswerStage::Opening => 14,
        AnswerStage::Card => 13,
        AnswerStage::Usn { .. } => 12,
        AnswerStage::Context { stage, .. } => 5 + context_replies_left(stage),
        AnswerStage::Clock { .. } => 5,
        AnswerStage::Entry { .. } => 4,
        AnswerStage::Stats { .. } => 3,
        AnswerStage::Update { .. } => 2,
        AnswerStage::Tag => 1,
    }
}

/// Every event brings an answer nearer to its end.
pub proof fn law_answer_ends(
    col: Collection,
    answer: CardAnswer,
    before: AnswerStage,
    event: Event,
)
    ensures
        col.answer_next(answer, before, event) matches AnswerStep::Continue(stage, _)
            ==> answer_events_left(stage) < answer_events_left(before),
{
}

/// The events that a look at the next states can still wait for.
pub open spec fn next_states_events_left(stage: NextStatesStage) -> nat {
    match stage {
        NextStatesStage::Asked => 8,
        NextStatesStage::Card => 7,
        NextStatesStage::Context(stage) => context_replies_left(stage),
    }
}

/// Every event brings a look at the next states nearer to its end.
pub proof fn law_next_states_end(
    col: Collection,
    cid: CardID,
    before: NextStatesStage,
    event: Event,
)
    ensures
        col.next_states_next(cid, before, event) matches NextStatesStep::Fetch(stage, _)
            ==> next_states_events_left(stage) < next_states_events_left(before),
{
}

/// What a keeper that never fails holds.
pub struct Keeper {
    pub cards: Map<CardID, Card>,
    pub decks: Map<DeckID, Deck>,
    pub configs: Map<DeckConfID, DeckConf>,
    pub default_config: DeckConf,
    pub usn: Usn,
    pub timing: SchedTimingToday,
    /// The time when a card's surroundings have been loaded.
    pub loaded_at: TimestampSecs,
    /// The time when an answer takes effect.
    pub applied_at: TimestampSecs,
}

/// What is under `key`, if anything.
pub open spec fn lookup<K, V>(map: Map<K, V>, key: K) -> Option<V> {
    if map.dom().contains(key) {
        Some(map[key])
    } else {
        None
    }
}

impl Keeper {
    /// What the keeper finds. `applying` says which of the two times it is.
    pub open spec fn reply(self, fetch: Fetch, applying: bool) -> Reply {
        match fetch {
            Fetch::Card(id) => Reply::Card(Ok(lookup(self.cards, id))),
            Fetch::Usn => Reply::Usn(Ok(self.usn)),
            Fetch::TimingToday => Reply::TimingToday(Ok(self.timing)),
            Fetch::Deck(id) => Reply::Deck(Ok(lookup(self.decks, id))),
            Fetch::DeckConfig(id) => Reply::DeckConfig(Ok(lookup(self.configs, id))),
            Fetch::DefaultDeckConfig => Reply::DefaultDeckConfig(self.default_config),
            Fetch::Clock => Reply::Clock(
                if applying {
                    self.applied_at
                } else {
                    self.loaded_at
                },
            ),
        }
    }

    /// What comes of an action.
    pub open spec fn event(self, stage: AnswerStage, action: Action) -> Event {
        match action {
            Action::Fetch(fetch) => Event::Reply(self.reply(fetch, stage is Clock)),
            _ => Event::Done(Ok(())),
        }
    }

    /// The options of a card: those of its deck, or of its home deck if its deck has
    /// none.
    pub open spec fn options(self, card: Card, deck: Deck) -> Option<DeckConfID> {
        match (deck.options(), lookup(self.decks, card.original_deck_id)) {
            (Some(config_id), _) => Some(config_id),
            (None, Some(home)) => home.options(),
            (None, None) => None,
        }
    }

    /// Whether the loading of the surroundings of `card` comes to `stage`, and what it
    /// then asks for.
    pub open spec fn reaches(self, card: Card, stage: ContextStage, fetch: Fetch) -> bool {
        match stage {
            ContextStage::Timing { card: loading } => {
                &&& loading == card
                &&& fetch == Fetch::TimingToday
            },
            ContextStage::Deck { card: loading, timing } => {
                &&& loading == card
                &&& timing == self.timing
                &&& fetch == Fetch::Deck(card.deck_id)
            },
            ContextStage::HomeDeck { card: loading, timing, deck } => {
                &&& loading == card
                &&& timing == self.timing
                &&& lookup(self.decks, card.deck_id) == Some(deck)
                &&& deck.options() is None
                &&& fetch == Fetch::Deck(card.original_deck_id)
            },
            ContextStage::Config { card: loading, timing, deck } => {
                &&& loading == card
                &&& timing == self.timing
                &&& lookup(self.decks, card.deck_id) == Some(deck)
                &&& self.options(card, deck) matches Some(config_id)
                &&& fetch == Fetch::DeckConfig(config_id)
            },
            ContextStage::DefaultConfig { card: loading, timing, deck } => {
                &&& loading == card
                &&& timing == self.timing
                &&& lookup(self.decks, card.deck_id) == Some(deck)
                &&& self.options(card, deck) matches Some(config_id)
                &&& lookup(self.configs, config_id) is None
                &&& fetch == Fetch::DefaultDeckConfig
            },
            ContextStage::Clock { card: loading, timing, deck, config } => {
                &&& loading == card
                &&& timing == self.timing
                &&& lookup(self.decks, card.deck_id) == Some(deck)
                &&& self.options(card, deck) matches Some(config_id)
                &&& config == self.config(config_id)
                &&& fetch == Fetch::Clock
            },
        }
    }

    /// The options under `config_id`, or those that replace them.
    pub open spec fn config(self, config_id: DeckConfID) -> DeckConf {
        match lookup(self.configs, config_id) {
            Some(config) => config,
            None => self.default_config,
        }
    }

    /// The card and its surroundings, unless the card, its deck, or options for it are
    /// missing. Options that are named but gone are replaced.
    pub open spec fn updater(self, col: Collection, cid: CardID) -> Option<CardStateUpdater> {
        match lookup(self.cards, cid) {
            Some(card) => match lookup(self.decks, card.deck_id) {
                Some(deck) => match self.options(card, deck) {
                    Some(config_id) => Some(
                        col.updater(
                            card,
                            deck,
                            self.config(config_id),
                            self.timing,
                            self.loaded_at,
                        ),
                    ),
                    None => None,
                },
                None => None,
            },
            None => None,
        }
    }
}

/// The writes that make up all that an answer changes, in order: the entry in the
/// review log, the statistics, the card, the tag.
pub open spec fn writes(changes: AnswerChanges) -> Seq<Action> {
    (match changes.entry {
        Some(entry) => seq![Action::AddRevlogEntry(entry)],
        None => seq![],
    }) + seq![Action::UpdateDeckStats(changes.stats), Action::UpdateCard(changes.card)] + (
    match changes.leech {
        Some(note_id) => seq![Action::AddLeechTag(note_id)],
        None => seq![],
    })
}

/// What an answer comes to: the writes that it makes, and how it ends.
pub open spec fn outcome(col: Collection, answer: CardAnswer, keeper: Keeper) -> (
    Seq<Action>,
    AnswerStep,
) {
    match keeper.updater(col, answer.card_id) {
        None => (seq![], AnswerStep::Rollback(AnkiError::NotFound)),
        Some(updater) => if !updater.state_fits() {
            (seq![], AnswerStep::OutOfRange)
        } else if updater.state() != answer.current_state {
            (
                seq![],
                AnswerStep::Rollback(card_modified(updater.state(), answer.current_state)),
            )
        } else if !updater.study_fits(
            answer.current_state,
            answer.new_state,
            keeper.applied_at,
        ) {
            (seq![], AnswerStep::OutOfRange)
        } else if updater.refuses(answer.new_state) {
            (seq![], AnswerStep::Rollback(not_in_filtered_deck()))
        } else {
            (
                writes(answer.changes(updater, keeper.usn, keeper.applied_at)),
                AnswerStep::Commit,
            )
        },
    }
}

/// The writes of an answer from `step` on, and how it ends, if the keeper does what it
/// is asked.
pub open spec fn run_answer(
    col: Collection,
    answer: CardAnswer,
    keeper: Keeper,
    step: AnswerStep,
    events_left: nat,
) -> (Seq<Action>, AnswerStep)
    decreases events_left,
{
    match step {
        AnswerStep::Continue(stage, action) if events_left > 0 => {
            let following = col.answer_next(answer, stage, keeper.event(stage, action));
            let (rest, end) = run_answer(col, answer, keeper, following, (events_left - 1) as nat);
            (
                if action.writes() {
                    seq![action] + rest
                } else {
                    rest
                },
                end,
            )
        },
        _ => (seq![], step),
    }
}

/// From its first write on an answer makes all its writes and is committed.
proof fn lemma_run_writes(
    col: Collection,
    answer: CardAnswer,
    keeper: Keeper,
    changes: AnswerChanges,
    events_left: nat,
)
    requires
        events_left >= 4,
    ensures
        run_answer(col, answer, keeper, col.first_write(changes), events_left) == (
            writes(changes),
            AnswerStep::Commit,
        ),
{
    reveal_with_fuel(run_answer, 5);
    assert(run_answer(col, answer, keeper, col.first_write(changes), events_left).0
        =~= writes(changes));
}

/// Once the surroundings are loaded an answer comes to what they and the answer say.
proof fn lemma_run_loaded(
    col: Collection,
    answer: CardAnswer,
    keeper: Keeper,
    updater: CardStateUpdater,
    events_left: nat,
)
    requires
        events_left >= 5,
        keeper.updater(col, answer.card_id) == Some(updater),
    ensures
        run_answer(
            col,
            answer,
            keeper,
            col.answer_after(answer, keeper.usn, ContextStep::Ready(updater)),
            events_left,
        ) == outcome(col, answer, keeper),
{
    if updater.state_fits() && updater.state() == answer.current_state {
        let step = col.answer_after(answer, keeper.usn, ContextStep::Ready(updater));
        let following = col.answer_at(answer, keeper.usn, updater, keeper.applied_at);
        let rest = (events_left - 1) as nat;
        assert(run_answer(col, answer, keeper, step, events_left) == run_answer(
            col,
            answer,
            keeper,
            following,
            rest,
        ));
        if updater.study_fits(answer.current_state, answer.new_state, keeper.applied_at)
            && !updater.refuses(answer.new_state) {
            let changes = answer.changes(updater, keeper.usn, keeper.applied_at);
            lemma_run_writes(col, answer, keeper, changes, rest);
        }
    }
}

/// An answer that asks for a card comes to the same as one that has loaded the card's
/// surroundings.
#[verifier::rlimit(50)]
proof fn lemma_run_loading(
    col: Collection,
    answer: CardAnswer,
    keeper: Keeper,
    card: Card,
    stage: ContextStage,
    fetch: Fetch,
    events_left: nat,
)
    requires
        lookup(keeper.cards, answer.card_id) == Some(card),
        keeper.reaches(card, stage, fetch),
        events_left >= 5 + context_replies_left(stage),
    ensures
        run_answer(
            col,
            answer,
            keeper,
            col.answer_after(answer, keeper.usn, ContextStep::Fetch(stage, fetch)),
            events_left,
        ) == outcome(col, answer, keeper),
    decreases context_replies_left(stage),
{
    let step = col.answer_after(answer, keeper.usn, ContextStep::Fetch(stage, fetch));
    let loading = col.context_next(stage, keeper.reply(fetch, false));
    let rest = (events_left - 1) as nat;
    assert(run_answer(col, answer, keeper, step, events_left) == run_answer(
        col,
        answer,
        keeper,
        col.answer_after(answer, keeper.usn, loading),
        rest,
    ));
    match loading {
        ContextStep::Fetch(next_stage, next_fetch) => {
            lemma_run_loading(col, answer, keeper, card, next_stage, next_fetch, rest);
        },
        ContextStep::Ready(updater) => {
            lemma_run_loaded(col, answer, keeper, updater, rest);
        },
        _ => {},
    }
}

/// An answer that is asked of a keeper that never fails makes exactly the writes that
/// follow from the card, its surroundings and the answer, and is then committed. If the
/// card, its deck or its options are missing, if the card is not in the state that the
/// answer was given for, or if the answer leads into a filtered deck that the card is
/// not in, then nothing is written and the answer is rolled back.
#[verifier::rlimit(50)]
pub proof fn law_answer_comes_to_its_outcome(col: Collection, answer: CardAnswer, keeper: Keeper)
    ensures
        run_answer(
            col,
            answer,
            keeper,
            col.answer_next(answer, AnswerStage::Asked, Event::Asked),
            14,
        ) == outcome(col, answer, keeper),
        outcome(col, answer, keeper).1 is Commit <==> outcome(col, answer, keeper).0.len() > 0,
{
    reveal_with_fuel(run_answer, 4);
    if let Some(card) = lookup(keeper.cards, answer.card_id) {
        lemma_run_loading(
            col,
            answer,
            keeper,
            card,
            ContextStage::Timing { card },
            Fetch::TimingToday,
            11,
        );
    }
}

/// How a look at the next states ends from `step` on, if the keeper does what it is
/// asked.
pub open spec fn run_next_states(
    col: Collection,
    cid: CardID,
    keeper: Keeper,
    step: NextStatesStep,
    events_left: nat,
) -> NextStatesStep
    decreases events_left,
{
    match step {
        NextStatesStep::Fetch(stage, fetch) if events_left > 0 => run_next_states(
            col,
            cid,
            keeper,
            col.next_states_next(cid, stage, Event::Reply(keeper.reply(fetch, false))),
            (events_left - 1) as nat,
        ),
        _ => step,
    }
}

/// A look at the next states of a card loads the same surroundings that an answer to it
/// would, and fails only if the card, its deck or its options are missing.
pub proof fn law_next_states_come_to_their_updater(col: Collection, cid: CardID, keeper: Keeper)
    ensures
        run_next_states(
            col,
            cid,
            keeper,
            col.next_states_next(cid, NextStatesStage::Asked, Event::Asked),
            7,
        ) == match keeper.updater(col, cid) {
            None => NextStatesStep::Failed(AnkiError::NotFound),
            Some(updater) => if updater.state_fits() {
                NextStatesStep::Ready(updater)
            } else {
                NextStatesStep::OutOfRange
            },
        },
{
    reveal_with_fuel(run_next_states, 8);
}

/// An answer for the state that a card was offered in is not refused as outdated later
/// on the same day, as long as the card and its surroundings are what they were.
pub proof fn law_offered_state_stays_current(
    col: Collection,
    answer: CardAnswer,
    offering: Keeper,
    answering: Keeper,
    offered: CardStateUpdater,
)
    requires
        offering.updater(col, answer.card_id) == Some(offered),
        offered.state_fits(),
        answer.current_state == offered.state(),
        answering.cards == offering.cards,
        answering.decks == offering.decks,
        answering.configs == offering.configs,
        answering.default_config == offering.default_config,
        answering.timing.days_elapsed == offering.timing.days_elapsed,
    ensures
        ({
            let end = outcome(col, answer, answering).1;
            ||| end is Commit
            ||| end == AnswerStep::Rollback(not_in_filtered_deck())
            ||| end is OutOfRange
        }),
        !offered.refuses(answer.new_state) ==> !(outcome(col, answer, answering).1 is Rollback),
{
}

} // verus!
