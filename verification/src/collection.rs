//! Study sessions: answering a card, and offering the answers to one.
//!
//! Each session is a state machine. What the user asks leads to a first request, and
//! every reply leads to the next request or to the end.
use vstd::prelude::*;

use crate::answering::{fuzz_seed, get_fuzz_seed, AnswerChanges, CardAnswer};
use crate::applying::not_in_filtered_deck;
use crate::card::Card;
use crate::deck::{Deck, DeckConf};
use crate::error::{AnkiError, InvalidInput};
use crate::ids::{CardID, DeckConfID, DeckID, NoteID, TimestampSecs, Usn};
use crate::requests::{Action, Event, Fetch, Reply};
use crate::states::{CardState, NextCardStates};
use crate::timing::SchedTimingToday;
use crate::updater::CardStateUpdater;

verus! {

/// What a study session needs to know of the collection as a whole.
#[derive(Debug, Clone, Copy, PartialEq, Eq, Structural)]
pub struct Collection {
    /// How far ahead cards in learning are shown when nothing else is due.
    pub learn_ahead_secs: u32,
    /// Whether intervals are to come out the same each time.
    pub testing: bool,
}

/// How far the loading of a card's surroundings has come: what it waits for.
#[derive(Debug, PartialEq, Eq)]
pub enum ContextStage {
    Timing { card: Card },
    Deck { card: Card, timing: SchedTimingToday },
    HomeDeck { card: Card, timing: SchedTimingToday, deck: Deck },
    Config { card: Card, timing: SchedTimingToday, deck: Deck },
    DefaultConfig { card: Card, timing: SchedTimingToday, deck: Deck },
    Clock { card: Card, timing: SchedTimingToday, deck: Deck, config: DeckConf },
}

/// What follows in the loading of a card's surroundings.
#[derive(Debug, PartialEq, Eq)]
pub enum ContextStep {
    Fetch(ContextStage, Fetch),
    Ready(CardStateUpdater),
    Failed(AnkiError),
    /// The reply was not one to the request.
    Misplaced,
}

/// How far a look at the next states has come: what it waits for.
#[derive(Debug, PartialEq, Eq)]
pub enum NextStatesStage {
    /// Nothing has been done yet.
    Asked,
    Card,
    Context(ContextStage),
}

/// What follows in a look at the next states.
#[derive(Debug, PartialEq, Eq)]
pub enum NextStatesStep {
    Fetch(NextStatesStage, Fetch),
    /// The states can be had from [`CardStateUpdater::next_card_states`].
    Ready(CardStateUpdater),
    Failed(AnkiError),
    /// A number of the card's state cannot be held.
    OutOfRange,
    /// The event was not one that was waited for.
    Misplaced,
}

/// How far an answer has come: what it waits for.
#[derive(Debug, PartialEq, Eq)]
pub enum AnswerStage {
    /// Nothing has been done yet.
    Asked,
    Opening,
    Card,
    Usn { card: Card },
    Context { usn: Usn, stage: ContextStage },
    Clock { usn: Usn, updater: CardStateUpdater },
    Entry { changes: AnswerChanges },
    Stats { changes: AnswerChanges },
    Update { changes: AnswerChanges },
    Tag,
}

/// What follows in an answer.
#[derive(Debug, PartialEq, Eq)]
pub enum AnswerStep {
    Continue(AnswerStage, Action),
    /// The answer is complete: make what was written last.
    Commit,
    /// The answer is refused or has failed: take back what was written.
    Rollback(AnkiError),
    /// No transaction could be started.
    Failed(AnkiError),
    /// A number of the card cannot be held. Nothing that was written is to last.
    OutOfRange,
    /// The event was not one that was waited for. Nothing that was written is to last.
    Misplaced,
}

/// Why an answer for another state than the card's own is refused.
pub open spec fn card_modified(current: CardState, answered: CardState) -> AnkiError {
    AnkiError::InvalidInput(InvalidInput::CardModified { current, answered })
}

/// Loading a card's surroundings.
impl Collection {
    /// Asks for the day, the first of a card's surroundings.
    pub open spec fn context_start(self, card: Card) -> ContextStep {
        ContextStep::Fetch(ContextStage::Timing { card }, Fetch::TimingToday)
    }

    /// What is looked up to find the options of a card: those that its deck names, or
    /// else the home deck, which names them.
    pub open spec fn options_fetch(
        self,
        config_id: Option<DeckConfID>,
        home_deck_id: DeckID,
    ) -> Fetch {
        match config_id {
            Some(config_id) => Fetch::DeckConfig(config_id),
            None => Fetch::Deck(home_deck_id),
        }
    }

    /// The card and all that was loaded for it.
    pub open spec fn updater(
        self,
        card: Card,
        deck: Deck,
        config: DeckConf,
        timing: SchedTimingToday,
        now: TimestampSecs,
    ) -> CardStateUpdater {
        CardStateUpdater {
            card,
            deck,
            config,
            timing,
            now,
            fuzz_seed: fuzz_seed(card.id, card.reps, self.testing),
        }
    }

    /// What follows from a reply. The day comes first, then the card's deck, the home
    /// deck if the card's deck has no options, the options, and the time. A deck that
    /// is missing, and a home deck without options, end the loading; options that are
    /// missing are replaced.
    pub open spec fn context_next(self, stage: ContextStage, reply: Reply) -> ContextStep {
        match (stage, reply) {
            (ContextStage::Timing { card }, Reply::TimingToday(Ok(timing))) => ContextStep::Fetch(
                ContextStage::Deck { card, timing },
                Fetch::Deck(card.deck_id),
            ),
            (ContextStage::Timing { .. }, Reply::TimingToday(Err(error))) => ContextStep::Failed(
                error,
            ),
            (ContextStage::Deck { card, timing }, Reply::Deck(Ok(Some(deck)))) => {
                ContextStep::Fetch(
                    if deck.options() is Some {
                        ContextStage::Config { card, timing, deck }
                    } else {
                        ContextStage::HomeDeck { card, timing, deck }
                    },
                    self.options_fetch(deck.options(), card.original_deck_id),
                )
            },
            (ContextStage::HomeDeck { card, timing, deck }, Reply::Deck(Ok(Some(home)))) => {
                match home.options() {
                    Some(config_id) => ContextStep::Fetch(
                        ContextStage::Config { card, timing, deck },
                        Fetch::DeckConfig(config_id),
                    ),
                    None => ContextStep::Failed(AnkiError::NotFound),
                }
            },
            (
                ContextStage::Deck { .. } | ContextStage::HomeDeck { .. },
                Reply::Deck(Ok(None)),
            ) => ContextStep::Failed(AnkiError::NotFound),
            (
                ContextStage::Deck { .. } | ContextStage::HomeDeck { .. },
                Reply::Deck(Err(error)),
            ) => ContextStep::Failed(error),
            (ContextStage::Config { card, timing, deck }, Reply::DeckConfig(Ok(Some(config)))) => {
                ContextStep::Fetch(
                    ContextStage::Clock { card, timing, deck, config },
                    Fetch::Clock,
                )
            },
            (ContextStage::Config { card, timing, deck }, Reply::DeckConfig(Ok(None))) => {
                ContextStep::Fetch(
                    ContextStage::DefaultConfig { card, timing, deck },
                    Fetch::DefaultDeckConfig,
                )
            },
            (ContextStage::Config { .. }, Reply::DeckConfig(Err(error))) => ContextStep::Failed(
                error,
            ),
            (ContextStage::DefaultConfig { card, timing, deck }, Reply::DefaultDeckConfig(config))
                => ContextStep::Fetch(
                ContextStage::Clock { card, timing, deck, config },
                Fetch::Clock,
            ),
            (ContextStage::Clock { card, timing, deck, config }, Reply::Clock(now)) => {
                ContextStep::Ready(self.updater(card, deck, config, timing, now))
            },
            _ => ContextStep::Misplaced,
        }
    }

    /// Starts to load the surroundings of a card.
    fn load_context(&self, card: Card) -> (step: ContextStep)
        ensures
            step == self.context_start(card),
    {
        ContextStep::Fetch(ContextStage::Timing { card }, Fetch::TimingToday)
    }

    /// What is to be looked up to find the options of a card.
    pub fn home_deck_config(&self, config_id: Option<DeckConfID>, home_deck_id: DeckID) -> (fetch:
        Fetch)
        ensures
            fetch == self.options_fetch(config_id, home_deck_id),
    {
        match config_id {
            Some(config_id) => Fetch::DeckConfig(config_id),
            None => Fetch::Deck(home_deck_id),
        }
    }

    /// Goes on with the loading of a card's surroundings.
    pub fn answer_context(&self, stage: ContextStage, reply: Reply) -> (step: ContextStep)
        ensures
            step == self.context_next(stage, reply),
    {
        match (stage, reply) {
            (ContextStage::Timing { card }, Reply::TimingToday(found)) => match found {
                Ok(timing) => ContextStep::Fetch(
                    ContextStage::Deck { card, timing },
                    Fetch::Deck(card.deck_id),
                ),
                Err(error) => ContextStep::Failed(error),
            },
            (ContextStage::Deck { card, timing }, Reply::Deck(found)) => match found {
                Ok(Some(deck)) => {
                    let config_id = deck.config_id();
                    let fetch = self.home_deck_config(config_id, card.original_deck_id);
                    if config_id.is_some() {
                        ContextStep::Fetch(ContextStage::Config { card, timing, deck }, fetch)
                    } else {
                        ContextStep::Fetch(ContextStage::HomeDeck { card, timing, deck }, fetch)
                    }
                },
                Ok(None) => ContextStep::Failed(AnkiError::NotFound),
                Err(error) => ContextStep::Failed(error),
            },
            (ContextStage::HomeDeck { card, timing, deck }, Reply::Deck(found)) => match found {
                Ok(Some(home)) => match home.config_id() {
                    Some(config_id) => ContextStep::Fetch(
                        ContextStage::Config { card, timing, deck },
                        Fetch::DeckConfig(config_id),
                    ),
                    None => ContextStep::Failed(AnkiError::NotFound),
                },
                Ok(None) => ContextStep::Failed(AnkiError::NotFound),
                Err(error) => ContextStep::Failed(error),
            },
            (ContextStage::Config { card, timing, deck }, Reply::DeckConfig(found)) => {
                match found {
                    Ok(Some(config)) => ContextStep::Fetch(
                        ContextStage::Clock { card, timing, deck, config },
                        Fetch::Clock,
                    ),
                    Ok(None) => ContextStep::Fetch(
                        ContextStage::DefaultConfig { card, timing, deck },
                        Fetch::DefaultDeckConfig,
                    ),
                    Err(error) => ContextStep::Failed(error),
                }
            },
            (ContextStage::DefaultConfig { card, timing, deck }, Reply::DefaultDeckConfig(config))
                => ContextStep::Fetch(
                ContextStage::Clock { card, timing, deck, config },
                Fetch::Clock,
            ),
            (ContextStage::Clock { card, timing, deck, config }, Reply::Clock(now)) => {
                let fuzz_seed = get_fuzz_seed(&card, self.testing);
                ContextStep::Ready(
                    CardStateUpdater { card, deck, config, timing, now, fuzz_seed },
                )
            },
            _ => ContextStep::Misplaced,
        }
    }
}

/// Looking at the next states of a card.
impl Collection {
    /// What follows when the loading has come to `step`.
    pub open spec fn next_states_after(self, step: ContextStep) -> NextStatesStep {
        match step {
            ContextStep::Fetch(stage, fetch) => NextStatesStep::Fetch(
                NextStatesStage::Context(stage),
                fetch,
            ),
            ContextStep::Ready(updater) => if updater.state_fits() {
                NextStatesStep::Ready(updater)
            } else {
                NextStatesStep::OutOfRange
            },
            ContextStep::Failed(error) => NextStatesStep::Failed(error),
            ContextStep::Misplaced => NextStatesStep::Misplaced,
        }
    }

    /// What follows from an event. The card comes first, then its surroundings.
    pub open spec fn next_states_next(
        self,
        cid: CardID,
        stage: NextStatesStage,
        event: Event,
    ) -> NextStatesStep {
        match (stage, event) {
            (NextStatesStage::Asked, Event::Asked) => NextStatesStep::Fetch(
                NextStatesStage::Card,
                Fetch::Card(cid),
            ),
            (NextStatesStage::Card, Event::Reply(Reply::Card(Ok(Some(card))))) => {
                self.next_states_after(self.context_start(card))
            },
            (NextStatesStage::Card, Event::Reply(Reply::Card(Ok(None)))) => NextStatesStep::Failed(
                AnkiError::NotFound,
            ),
            (NextStatesStage::Card, Event::Reply(Reply::Card(Err(error)))) => {
                NextStatesStep::Failed(error)
            },
            (NextStatesStage::Context(stage), Event::Reply(reply)) => self.next_states_after(
                self.context_next(stage, reply),
            ),
            _ => NextStatesStep::Misplaced,
        }
    }

    /// Takes the look at the states that the answers to a card lead to one step
    /// further.
    pub fn get_next_card_states(&self, cid: CardID, stage: NextStatesStage, event: Event) -> (step:
        NextStatesStep)
        ensures
            step == self.next_states_next(cid, stage, event),
    {
        let loading = match (stage, event) {
            (NextStatesStage::Asked, Event::Asked) => {
                return NextStatesStep::Fetch(NextStatesStage::Card, Fetch::Card(cid));
            },
            (NextStatesStage::Card, Event::Reply(Reply::Card(found))) => match found {
                Ok(Some(card)) => self.load_context(card),
                Ok(None) => return NextStatesStep::Failed(AnkiError::NotFound),
                Err(error) => return NextStatesStep::Failed(error),
            },
            (NextStatesStage::Context(stage), Event::Reply(reply)) => {
                self.answer_context(stage, reply)
            },
            _ => return NextStatesStep::Misplaced,
        };
        match loading {
            ContextStep::Fetch(stage, fetch) => NextStatesStep::Fetch(
                NextStatesStage::Context(stage),
                fetch,
            ),
            ContextStep::Ready(updater) => {
                if updater.has_card_state() {
                    NextStatesStep::Ready(updater)
                } else {
                    NextStatesStep::OutOfRange
                }
            },
            ContextStep::Failed(error) => NextStatesStep::Failed(error),
            ContextStep::Misplaced => NextStatesStep::Misplaced,
        }
    }

    /// The length in seconds that a button shows for the state that it leads to.
    pub open spec fn button_secs(state: CardState, secs_until_rollover: u32) -> u32 {
        state.interval().at_rollover(secs_until_rollover).seconds()
    }

    /// Describes the states that the four buttons lead to, in the order again, hard,
    /// good, easy. `timing` is the day that `now` falls into, and `describe` puts a
    /// number of seconds into words, given how far ahead cards are shown.
    pub fn describe_next_states<F: Fn(u32, u32) -> String>(
        &self,
        choices: NextCardStates,
        now: TimestampSecs,
        timing: Result<SchedTimingToday, AnkiError>,
        describe: F,
    ) -> (described: Result<Vec<String>, AnkiError>)
        requires
            timing matches Ok(timing) ==> timing.rollover_fits(now),
            forall|secs: u32| call_requires(describe, (secs, self.learn_ahead_secs)),
        ensures
            timing matches Err(error) ==> described == Err::<Vec<String>, _>(error),
            timing matches Ok(timing) ==> {
                let left = timing.until_rollover(now);
                let ahead = self.learn_ahead_secs;
                &&& described matches Ok(texts)
                &&& texts@.len() == 4
                &&& call_ensures(describe, (Self::button_secs(choices.again, left), ahead), texts@[0])
                &&& call_ensures(describe, (Self::button_secs(choices.hard, left), ahead), texts@[1])
                &&& call_ensures(describe, (Self::button_secs(choices.good, left), ahead), texts@[2])
                &&& call_ensures(describe, (Self::button_secs(choices.easy, left), ahead), texts@[3])
            },
    {
        let collapse_time: u32 = self.learn_ahead_secs;
        let timing = timing?;
        let left: u32 = timing.secs_until_rollover(now);
        let again = describe(
            choices.again.interval_kind().maybe_as_days(left).as_seconds(),
            collapse_time,
        );
        let hard = describe(
            choices.hard.interval_kind().maybe_as_days(left).as_seconds(),
            collapse_time,
        );
        let good = describe(
            choices.good.interval_kind().maybe_as_days(left).as_seconds(),
            collapse_time,
        );
        let easy = describe(
            choices.easy.interval_kind().maybe_as_days(left).as_seconds(),
            collapse_time,
        );
        let mut texts: Vec<String> = Vec::new();
        texts.push(again);
        texts.push(hard);
        texts.push(good);
        texts.push(easy);
        Ok(texts)
    }
}

/// Answering a card.
impl Collection {
    /// What follows when the loading has come to `step`. An answer that was given for
    /// another state than the card's own is refused.
    pub open spec fn answer_after(self, answer: CardAnswer, usn: Usn, step: ContextStep) -> AnswerStep {
        match step {
            ContextStep::Fetch(stage, fetch) => AnswerStep::Continue(
                AnswerStage::Context { usn, stage },
                Action::Fetch(fetch),
            ),
            ContextStep::Ready(updater) => if !updater.state_fits() {
                AnswerStep::OutOfRange
            } else if updater.state() != answer.current_state {
                AnswerStep::Rollback(card_modified(updater.state(), answer.current_state))
            } else {
                AnswerStep::Continue(
                    AnswerStage::Clock { usn, updater },
                    Action::Fetch(Fetch::Clock),
                )
            },
            ContextStep::Failed(error) => AnswerStep::Rollback(error),
            ContextStep::Misplaced => AnswerStep::Misplaced,
        }
    }

    /// The first write: the entry in the review log, if there is one, or else the
    /// statistics.
    pub open spec fn first_write(self, changes: AnswerChanges) -> AnswerStep {
        match changes.entry {
            Some(entry) => AnswerStep::Continue(
                AnswerStage::Entry { changes },
                Action::AddRevlogEntry(entry),
            ),
            None => AnswerStep::Continue(
                AnswerStage::Stats { changes },
                Action::UpdateDeckStats(changes.stats),
            ),
        }
    }

    /// What follows when the answer takes effect at `clock`.
    pub open spec fn answer_at(
        self,
        answer: CardAnswer,
        usn: Usn,
        updater: CardStateUpdater,
        clock: TimestampSecs,
    ) -> AnswerStep {
        if !updater.study_fits(answer.current_state, answer.new_state, clock) {
            AnswerStep::OutOfRange
        } else if updater.refuses(answer.new_state) {
            AnswerStep::Rollback(not_in_filtered_deck())
        } else {
            self.first_write(answer.changes(updater, usn, clock))
        }
    }

    /// What follows from an event once the transaction is open. All is read before
    /// anything is written. Whatever fails ends the answer.
    pub open spec fn answer_inner_next(
        self,
        answer: CardAnswer,
        stage: AnswerStage,
        event: Event,
    ) -> AnswerStep {
        match (stage, event) {
            (AnswerStage::Card, Event::Reply(Reply::Card(Ok(Some(card))))) => {
                AnswerStep::Continue(AnswerStage::Usn { card }, Action::Fetch(Fetch::Usn))
            },
            (AnswerStage::Card, Event::Reply(Reply::Card(Ok(None)))) => AnswerStep::Rollback(
                AnkiError::NotFound,
            ),
            (AnswerStage::Card, Event::Reply(Reply::Card(Err(error)))) => AnswerStep::Rollback(
                error,
            ),
            (AnswerStage::Usn { card }, Event::Reply(Reply::Usn(Ok(usn)))) => self.answer_after(
                answer,
                usn,
                self.context_start(card),
            ),
            (AnswerStage::Usn { .. }, Event::Reply(Reply::Usn(Err(error)))) => {
                AnswerStep::Rollback(error)
            },
            (AnswerStage::Context { usn, stage }, Event::Reply(reply)) => self.answer_after(
                answer,
                usn,
                self.context_next(stage, reply),
            ),
            (AnswerStage::Clock { usn, updater }, Event::Reply(Reply::Clock(clock))) => {
                self.answer_at(answer, usn, updater, clock)
            },
            (AnswerStage::Entry { changes }, Event::Done(Ok(_))) => AnswerStep::Continue(
                AnswerStage::Stats { changes },
                Action::UpdateDeckStats(changes.stats),
            ),
            (AnswerStage::Stats { changes }, Event::Done(Ok(_))) => AnswerStep::Continue(
                AnswerStage::Update { changes },
                Action::UpdateCard(changes.card),
            ),
            (AnswerStage::Update { changes }, Event::Done(Ok(_))) => match changes.leech {
                Some(note_id) => AnswerStep::Continue(
                    AnswerStage::Tag,
                    Action::AddLeechTag(note_id),
                ),
                None => AnswerStep::Commit,
            },
            (AnswerStage::Tag, Event::Done(Ok(_))) => AnswerStep::Commit,
            (
                AnswerStage::Entry { .. } | AnswerStage::Stats { .. } | AnswerStage::Update { .. }
                | AnswerStage::Tag,
                Event::Done(Err(error)),
            ) => AnswerStep::Rollback(error),
            _ => AnswerStep::Misplaced,
        }
    }

    /// What follows from an event. The answer is given in a transaction.
    pub open spec fn answer_next(
        self,
        answer: CardAnswer,
        stage: AnswerStage,
        event: Event,
    ) -> AnswerStep {
        match (stage, event) {
            (AnswerStage::Asked, Event::Asked) => AnswerStep::Continue(
                AnswerStage::Opening,
                Action::Begin,
            ),
            (AnswerStage::Opening, Event::Done(Ok(_))) => AnswerStep::Continue(
                AnswerStage::Card,
                Action::Fetch(Fetch::Card(answer.card_id)),
            ),
            (AnswerStage::Opening, Event::Done(Err(error))) => AnswerStep::Failed(error),
            _ => self.answer_inner_next(answer, stage, event),
        }
    }

    /// Asks for the note of a leech to be tagged.
    pub fn add_leech_tag(&self, nid: NoteID) -> (step: AnswerStep)
        ensures
            step == AnswerStep::Continue(AnswerStage::Tag, Action::AddLeechTag(nid)),
    {
        AnswerStep::Continue(AnswerStage::Tag, Action::AddLeechTag(nid))
    }

    /// Goes on with an answer whose loading has come to `loading`.
    fn answer_loading(&self, answer: &CardAnswer, usn: Usn, loading: ContextStep) -> (step:
        AnswerStep)
        ensures
            step == self.answer_after(*answer, usn, loading),
    {
        match loading {
            ContextStep::Fetch(stage, fetch) => AnswerStep::Continue(
                AnswerStage::Context { usn, stage },
                Action::Fetch(fetch),
            ),
            ContextStep::Ready(updater) => {
                if !updater.has_card_state() {
                    return AnswerStep::OutOfRange;
                }
                let current = updater.current_card_state();
                if current != answer.current_state {
                    return AnswerStep::Rollback(
                        AnkiError::InvalidInput(
                            InvalidInput::CardModified { current, answered: answer.current_state },
                        ),
                    );
                }
                AnswerStep::Continue(
                    AnswerStage::Clock { usn, updater },
                    Action::Fetch(Fetch::Clock),
                )
            },
            ContextStep::Failed(error) => AnswerStep::Rollback(error),
            ContextStep::Misplaced => AnswerStep::Misplaced,
        }
    }

    /// Goes on with an answer that takes effect at `clock`.
    fn answer_taking_effect(
        &self,
        answer: &CardAnswer,
        usn: Usn,
        updater: CardStateUpdater,
        clock: TimestampSecs,
    ) -> (step: AnswerStep)
        ensures
            step == self.answer_at(*answer, usn, updater, clock),
    {
        if !updater.can_apply(answer.current_state, answer.new_state, clock) {
            return AnswerStep::OutOfRange;
        }
        match answer.apply(updater, usn, clock) {
            Ok(changes) => match changes.entry {
                Some(entry) => AnswerStep::Continue(
                    AnswerStage::Entry { changes },
                    Action::AddRevlogEntry(entry),
                ),
                None => AnswerStep::Continue(
                    AnswerStage::Stats { changes },
                    Action::UpdateDeckStats(changes.stats),
                ),
            },
            Err(error) => AnswerStep::Rollback(error),
        }
    }

    /// Takes an answer one step further, in a transaction.
    pub fn answer_card(&self, answer: &CardAnswer, stage: AnswerStage, event: Event) -> (step:
        AnswerStep)
        ensures
            step == self.answer_next(*answer, stage, event),
    {
        match (stage, event) {
            (AnswerStage::Asked, Event::Asked) => AnswerStep::Continue(
                AnswerStage::Opening,
                Action::Begin,
            ),
            (AnswerStage::Opening, Event::Done(begun)) => match begun {
                Ok(_) => AnswerStep::Continue(
                    AnswerStage::Card,
                    Action::Fetch(Fetch::Card(answer.card_id)),
                ),
                Err(error) => AnswerStep::Failed(error),
            },
            (stage, event) => self.answer_card_inner(answer, stage, event),
        }
    }

    /// Takes an answer one step further once the transaction is open.
    pub fn answer_card_inner(&self, answer: &CardAnswer, stage: AnswerStage, event: Event) -> (step:
        AnswerStep)
        ensures
            step == self.answer_inner_next(*answer, stage, event),
    {
        match (stage, event) {
            (AnswerStage::Card, Event::Reply(Reply::Card(found))) => match found {
                Ok(Some(card)) => AnswerStep::Continue(
                    AnswerStage::Usn { card },
                    Action::Fetch(Fetch::Usn),
                ),
                Ok(None) => AnswerStep::Rollback(AnkiError::NotFound),
                Err(error) => AnswerStep::Rollback(error),
            },
            (AnswerStage::Usn { card }, Event::Reply(Reply::Usn(found))) => match found {
                Ok(usn) => self.answer_loading(answer, usn, self.load_context(card)),
                Err(error) => AnswerStep::Rollback(error),
            },
            (AnswerStage::Context { usn, stage }, Event::Reply(reply)) => {
                self.answer_loading(answer, usn, self.answer_context(stage, reply))
            },
            (AnswerStage::Clock { usn, updater }, Event::Reply(Reply::Clock(clock))) => {
                self.answer_taking_effect(answer, usn, updater, clock)
            },
            (AnswerStage::Entry { changes }, Event::Done(written)) => match written {
                Ok(_) => AnswerStep::Continue(
                    AnswerStage::Stats { changes },
                    Action::UpdateDeckStats(changes.stats),
                ),
                Err(error) => AnswerStep::Rollback(error),
            },
            (AnswerStage::Stats { changes }, Event::Done(written)) => match written {
                Ok(_) => AnswerStep::Continue(
                    AnswerStage::Update { changes },
                    Action::UpdateCard(changes.card),
                ),
                Err(error) => AnswerStep::Rollback(error),
            },
            (AnswerStage::Update { changes }, Event::Done(written)) => match written {
                Ok(_) => match changes.leech {
                    Some(note_id) => self.add_leech_tag(note_id),
                    None => AnswerStep::Commit,
                },
                Err(error) => AnswerStep::Rollback(error),
            },
            (AnswerStage::Tag, Event::Done(written)) => match written {
                Ok(_) => AnswerStep::Commit,
                Err(error) => AnswerStep::Rollback(error),
            },
            _ => AnswerStep::Misplaced,
        }
    }
}

/// Adds the tag that marks leeches to the tags of a note.
pub fn push_leech_tag(tags: &mut Vec<String>)
    ensures
        final(tags)@.len() == old(tags)@.len() + 1,
        final(tags)@.drop_last() == old(tags)@,
        final(tags)@.last()@ == "leech"@,
{
    tags.push("leech".to_string());
    assert(tags@.drop_last() =~= old(tags)@);
}

} // verus!
