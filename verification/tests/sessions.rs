use anki::answering::{CardAnswer, CardUpdate, DeckStatsUpdate, Rating, UpdateStatsIn};
use anki::card::{Card, CardQueue, CardType};
use anki::collection::{
    push_leech_tag, AnswerStage, AnswerStep, Collection, NextStatesStage, NextStatesStep,
};
use anki::deck::{
    Deck, DeckConf, DeckConfInner, DeckKind, FilteredDeck, LeechAction, Multiplier, NormalDeck,
};
use anki::error::{AnkiError, InvalidInput};
use anki::ids::{CardID, DeckConfID, DeckID, NoteID, TimestampMillis, TimestampSecs, Usn};
use anki::requests::{Action, Event, Fetch, Reply};
use anki::revlog::{RevlogEntry, RevlogReviewKind};
use anki::states::{
    CardState, FilteredState, LearnState, NewState, NextCardStates, NormalState, PreviewState,
    RelearnState, ReviewState,
};
use anki::timing::SchedTimingToday;

const COLLECTION: Collection = Collection { learn_ahead_secs: 1_200, testing: false };

fn config(id: i64) -> DeckConf {
    DeckConf {
        id: DeckConfID(id),
        inner: DeckConfInner {
            learn_steps: vec![60, 600],
            relearn_steps: vec![900],
            graduating_interval_good: 1,
            graduating_interval_easy: 4,
            hard_multiplier: Multiplier(0),
            easy_multiplier: Multiplier(0),
            interval_multiplier: Multiplier(0),
            lapse_multiplier: Multiplier(0),
            maximum_review_interval: 36_500,
            minimum_lapse_interval: 1,
            leech_threshold: 8,
            leech_action: LeechAction::Suspend,
        },
    }
}

fn card() -> Card {
    Card {
        id: CardID(1_000),
        note_id: NoteID(2_000),
        deck_id: DeckID(1),
        ctype: CardType::Review,
        queue: CardQueue::Review,
        due: 95,
        interval: 30,
        ease_factor: 2_500,
        reps: 7,
        lapses: 3,
        remaining_steps: 0,
        original_due: 0,
        original_deck_id: DeckID(0),
    }
}

fn reviewed(scheduled_days: u32, elapsed_days: u32) -> CardState {
    CardState::Normal(NormalState::Review(ReviewState {
        scheduled_days,
        elapsed_days,
        ease_factor: 2_500,
        lapses: 3,
        leeched: false,
    }))
}

fn forgotten(leeched: bool) -> CardState {
    CardState::Normal(NormalState::Relearning(RelearnState {
        learning: LearnState { remaining_steps: 1, scheduled_secs: 900 },
        review: ReviewState {
            scheduled_days: 1,
            elapsed_days: 0,
            ease_factor: 2_300,
            lapses: 4,
            leeched,
        },
    }))
}

fn answer(new_state: CardState) -> CardAnswer {
    CardAnswer {
        card_id: CardID(1_000),
        current_state: reviewed(30, 35),
        new_state,
        rating: Rating::Good,
        answered_at: TimestampMillis(4_001_000),
        milliseconds_taken: 5_500,
    }
}

/// Holds a small collection and writes down what it is asked to write.
struct Keeper {
    card: Option<Card>,
    decks: Vec<Deck>,
    configs: Vec<i64>,
    clocks: Vec<i64>,
    failing: Option<Action>,
    failing_fetch: Option<Fetch>,
    fetched: Vec<Fetch>,
    written: Vec<Action>,
    begun: u32,
}

fn normal_deck(id: i64, config_id: i64) -> Deck {
    Deck { id: DeckID(id), kind: DeckKind::Normal(NormalDeck { config_id: DeckConfID(config_id) }) }
}

fn filtered_deck(id: i64, reschedule: bool) -> Deck {
    let kind = DeckKind::Filtered(FilteredDeck { reschedule, preview_delay: 10 });
    Deck { id: DeckID(id), kind }
}

fn keeper() -> Keeper {
    Keeper {
        card: Some(card()),
        decks: vec![normal_deck(1, 11)],
        configs: vec![11],
        clocks: vec![4_005, 4_000],
        failing: None,
        failing_fetch: None,
        fetched: vec![],
        written: vec![],
        begun: 0,
    }
}

fn broken() -> AnkiError {
    AnkiError::DbError { info: "disk full".to_string() }
}

impl Keeper {
    fn fetch(&mut self, fetch: Fetch) -> Reply {
        self.fetched.push(fetch);
        if self.failing_fetch == Some(fetch) {
            return match fetch {
                Fetch::Card(_) => Reply::Card(Err(broken())),
                Fetch::Usn => Reply::Usn(Err(broken())),
                Fetch::TimingToday => Reply::TimingToday(Err(broken())),
                Fetch::Deck(_) => Reply::Deck(Err(broken())),
                Fetch::DeckConfig(_) => Reply::DeckConfig(Err(broken())),
                Fetch::DefaultDeckConfig | Fetch::Clock => panic!("never fails"),
            };
        }
        match fetch {
            Fetch::Card(id) => Reply::Card(Ok(self.card.filter(|card| card.id == id))),
            Fetch::Usn => Reply::Usn(Ok(Usn(42))),
            Fetch::TimingToday => Reply::TimingToday(Ok(SchedTimingToday {
                days_elapsed: 100,
                next_day_at: 10_000,
            })),
            Fetch::Deck(id) => {
                Reply::Deck(Ok(self.decks.iter().find(|deck| deck.id == id).copied()))
            }
            Fetch::DeckConfig(id) => Reply::DeckConfig(Ok(
                self.configs.iter().find(|config| **config == id.0).map(|id| config(*id))
            )),
            Fetch::DefaultDeckConfig => Reply::DefaultDeckConfig(config(0)),
            Fetch::Clock => Reply::Clock(TimestampSecs(self.clocks.pop().unwrap())),
        }
    }

    fn perform(&mut self, action: Action) -> Event {
        match action {
            Action::Fetch(fetch) => Event::Reply(self.fetch(fetch)),
            Action::Begin => {
                if self.failing == Some(action) {
                    return Event::Done(Err(broken()));
                }
                self.begun += 1;
                Event::Done(Ok(()))
            }
            _ => {
                if self.failing == Some(action) {
                    return Event::Done(Err(broken()));
                }
                self.written.push(action);
                Event::Done(Ok(()))
            }
        }
    }

    fn answer(&mut self, answer: &CardAnswer) -> AnswerStep {
        let mut step = COLLECTION.answer_card(answer, AnswerStage::Asked, Event::Asked);
        while let AnswerStep::Continue(stage, action) = step {
            let event = self.perform(action);
            step = COLLECTION.answer_card(answer, stage, event);
        }
        step
    }

    fn look(&mut self) -> NextStatesStep {
        let cid = CardID(1_000);
        let mut step =
            COLLECTION.get_next_card_states(cid, NextStatesStage::Asked, Event::Asked);
        while let NextStatesStep::Fetch(stage, fetch) = step {
            let event = Event::Reply(self.fetch(fetch));
            step = COLLECTION.get_next_card_states(cid, stage, event);
        }
        step
    }
}

#[test]
fn good_answer_is_written_and_committed() {
    let mut keeper = keeper();
    assert_eq!(keeper.answer(&answer(reviewed(80, 0))), AnswerStep::Commit);
    let entry = RevlogEntry {
        id: TimestampMillis(4_001_000),
        cid: CardID(1_000),
        usn: Usn(42),
        button_chosen: 3,
        interval: 80,
        last_interval: 30,
        ease_factor: 2_500,
        taken_millis: 5_500,
        review_kind: RevlogReviewKind::Review,
    };
    let stats = DeckStatsUpdate {
        today: 100,
        usn: Usn(42),
        stats: UpdateStatsIn {
            deck_id: 1,
            new_delta: 0,
            review_delta: 1,
            millisecond_delta: 5_500,
        },
    };
    let update = CardUpdate {
        card: Card { due: 180, interval: 80, reps: 8, ..card() },
        original: card(),
        usn: Usn(42),
    };
    let expected = vec![
        Action::AddRevlogEntry(entry),
        Action::UpdateDeckStats(stats),
        Action::UpdateCard(update),
    ];
    assert_eq!(keeper.written, expected);
    assert_eq!(keeper.begun, 1);
    let fetched = vec![
        Fetch::Card(CardID(1_000)),
        Fetch::Usn,
        Fetch::TimingToday,
        Fetch::Deck(DeckID(1)),
        Fetch::DeckConfig(DeckConfID(11)),
        Fetch::Clock,
        Fetch::Clock,
    ];
    assert_eq!(keeper.fetched, fetched);
}

#[test]
fn learning_delay_runs_from_the_later_clock() {
    let mut keeper = keeper();
    let new_state =
        CardState::Normal(NormalState::Learning(LearnState { remaining_steps: 2, scheduled_secs: 60 }));
    assert_eq!(keeper.answer(&answer(new_state)), AnswerStep::Commit);
    match keeper.written[2] {
        Action::UpdateCard(update) => assert_eq!(update.card.due, 4_065),
        _ => panic!("the card is written third"),
    }
}

#[test]
fn new_cards_count_as_new() {
    let fresh = Card { ctype: CardType::New, queue: CardQueue::New, due: 5, ..card() };
    let mut keeper = Keeper { card: Some(fresh), ..keeper() };
    let current_state = CardState::Normal(NormalState::New(NewState { position: 5 }));
    let given = CardAnswer { current_state, ..answer(reviewed(4, 0)) };
    assert_eq!(keeper.answer(&given), AnswerStep::Commit);
    match keeper.written[1] {
        Action::UpdateDeckStats(update) => {
            assert_eq!(update.stats.new_delta, 1);
            assert_eq!(update.stats.review_delta, 0);
        }
        _ => panic!("the statistics are written second"),
    }
}

#[test]
fn leeches_are_tagged_last() {
    let mut keeper = keeper();
    assert_eq!(keeper.answer(&answer(forgotten(true))), AnswerStep::Commit);
    assert_eq!(keeper.written.len(), 4);
    assert_eq!(keeper.written[3], Action::AddLeechTag(NoteID(2_000)));
    match keeper.written[2] {
        Action::UpdateCard(update) => assert_eq!(update.card.queue, CardQueue::Suspended),
        _ => panic!("the card is written third"),
    }
}

#[test]
fn leech_tag_is_added_to_the_others() {
    let mut tags = vec!["verbs".to_string()];
    push_leech_tag(&mut tags);
    assert_eq!(tags, vec!["verbs".to_string(), "leech".to_string()]);
}

#[test]
fn outdated_answer_is_refused() {
    let mut keeper = Keeper { card: Some(Card { lapses: 9, ..card() }), ..keeper() };
    let current = CardState::Normal(NormalState::Review(ReviewState {
        scheduled_days: 30,
        elapsed_days: 35,
        ease_factor: 2_500,
        lapses: 9,
        leeched: false,
    }));
    let refusal = InvalidInput::CardModified { current, answered: reviewed(30, 35) };
    assert_eq!(refusal.summary(), "card was modified");
    let expected = AnswerStep::Rollback(AnkiError::InvalidInput(refusal));
    assert_eq!(keeper.answer(&answer(reviewed(80, 0))), expected);
    assert!(keeper.written.is_empty());
}

#[test]
fn answer_into_a_filtered_state_is_refused() {
    let mut keeper = keeper();
    let preview = CardState::Filtered(FilteredState::Preview(PreviewState {
        scheduled_secs: 600,
        original_state: NormalState::New(NewState { position: 0 }),
    }));
    let refusal = AnkiError::InvalidInput(InvalidInput::NotInFilteredDeck);
    assert_eq!(keeper.answer(&answer(preview)), AnswerStep::Rollback(refusal));
    assert!(keeper.written.is_empty());
}

#[test]
fn missing_rows_are_not_found() {
    let given = answer(reviewed(80, 0));
    let missing = AnswerStep::Rollback(AnkiError::NotFound);
    assert_eq!(Keeper { card: None, ..keeper() }.answer(&given), missing);
    assert_eq!(Keeper { decks: vec![], ..keeper() }.answer(&given), missing);
    let decks = vec![filtered_deck(1, true)];
    assert_eq!(Keeper { decks, ..keeper() }.answer(&given), missing);
    let away = Card { original_deck_id: DeckID(2), ..card() };
    let decks = vec![filtered_deck(1, true), filtered_deck(2, true)];
    assert_eq!(Keeper { card: Some(away), decks, ..keeper() }.answer(&given), missing);
    assert_eq!(
        Keeper { card: None, ..keeper() }.look(),
        NextStatesStep::Failed(AnkiError::NotFound)
    );
}

#[test]
fn filtered_decks_use_the_options_of_the_home_deck() {
    let away = Card { deck_id: DeckID(9), original_due: 95, original_deck_id: DeckID(2), ..card() };
    let decks = vec![filtered_deck(9, false), normal_deck(2, 22)];
    let mut keeper = Keeper { card: Some(away), decks, configs: vec![11, 22], ..keeper() };
    match keeper.look() {
        NextStatesStep::Ready(updater) => {
            assert_eq!(updater.config.id, DeckConfID(22));
            assert_eq!(updater.deck.id, DeckID(9));
            assert_eq!(updater.fuzz_seed, Some(1_007));
            assert_eq!(updater.now, TimestampSecs(4_000));
        }
        _ => panic!("the card can be looked at"),
    }
    let fetched = vec![
        Fetch::Card(CardID(1_000)),
        Fetch::TimingToday,
        Fetch::Deck(DeckID(9)),
        Fetch::Deck(DeckID(2)),
        Fetch::DeckConfig(DeckConfID(22)),
        Fetch::Clock,
    ];
    assert_eq!(keeper.fetched, fetched);
}

#[test]
fn lost_options_are_replaced() {
    let mut keeper = Keeper { configs: vec![], ..keeper() };
    match keeper.look() {
        NextStatesStep::Ready(updater) => assert_eq!(updater.config.id, DeckConfID(0)),
        _ => panic!("the card can be looked at"),
    }
    assert!(keeper.fetched.contains(&Fetch::DefaultDeckConfig));
}

#[test]
fn previews_are_answered_without_an_entry() {
    let away = Card { deck_id: DeckID(9), original_due: 95, original_deck_id: DeckID(2), ..card() };
    let decks = vec![filtered_deck(9, false), normal_deck(2, 11)];
    let mut keeper = Keeper { card: Some(away), decks, ..keeper() };
    let original_state = NormalState::Review(ReviewState {
        scheduled_days: 30,
        elapsed_days: 35,
        ease_factor: 2_500,
        lapses: 3,
        leeched: false,
    });
    let state = CardState::Filtered(FilteredState::Preview(PreviewState {
        scheduled_secs: 600,
        original_state,
    }));
    let given = CardAnswer { current_state: state, ..answer(state) };
    assert_eq!(keeper.answer(&given), AnswerStep::Commit);
    assert_eq!(keeper.written.len(), 2);
    match (keeper.written[0], keeper.written[1]) {
        (Action::UpdateDeckStats(stats), Action::UpdateCard(update)) => {
            assert_eq!(stats.stats.deck_id, 9);
            assert_eq!(stats.stats.new_delta, 0);
            assert_eq!(stats.stats.review_delta, 0);
            let expected = Card { queue: CardQueue::PreviewRepeat, due: 4_605, ..away };
            assert_eq!(update.card, expected);
        }
        _ => panic!("the statistics and the card are written"),
    }
}

#[test]
fn offered_state_is_accepted() {
    let current_state = match keeper().look() {
        NextStatesStep::Ready(updater) => updater.current_card_state(),
        _ => panic!("the card can be looked at"),
    };
    let given = CardAnswer { current_state, ..answer(forgotten(false)) };
    let mut later = Keeper { clocks: vec![9_005, 9_000], ..keeper() };
    assert_eq!(later.answer(&given), AnswerStep::Commit);
}

#[test]
fn failures_end_an_answer() {
    let given = answer(reviewed(80, 0));
    let mut closed = Keeper { failing: Some(Action::Begin), ..keeper() };
    assert_eq!(closed.answer(&given), AnswerStep::Failed(broken()));
    for fetch in [
        Fetch::Card(CardID(1_000)),
        Fetch::Usn,
        Fetch::TimingToday,
        Fetch::Deck(DeckID(1)),
        Fetch::DeckConfig(DeckConfID(11)),
    ] {
        let mut keeper = Keeper { failing_fetch: Some(fetch), ..keeper() };
        assert_eq!(keeper.answer(&given), AnswerStep::Rollback(broken()));
        assert!(keeper.written.is_empty());
    }
    let mut whole = keeper();
    whole.answer(&answer(forgotten(true)));
    for action in whole.written {
        let mut keeper = Keeper { failing: Some(action), ..keeper() };
        let given = answer(forgotten(true));
        assert_eq!(keeper.answer(&given), AnswerStep::Rollback(broken()));
    }
}

#[test]
fn failures_end_a_look() {
    for fetch in [Fetch::Card(CardID(1_000)), Fetch::TimingToday, Fetch::Deck(DeckID(1))] {
        let mut keeper = Keeper { failing_fetch: Some(fetch), ..keeper() };
        assert_eq!(keeper.look(), NextStatesStep::Failed(broken()));
    }
}

#[test]
fn misplaced_events_are_noticed() {
    let given = answer(reviewed(80, 0));
    let step = COLLECTION.answer_card(&given, AnswerStage::Card, Event::Done(Ok(())));
    assert_eq!(step, AnswerStep::Misplaced);
    let reply = Event::Reply(Reply::Usn(Ok(Usn(1))));
    let step = COLLECTION.answer_card(&given, AnswerStage::Card, reply);
    assert_eq!(step, AnswerStep::Misplaced);
    let step =
        COLLECTION.get_next_card_states(CardID(1), NextStatesStage::Card, Event::Done(Ok(())));
    assert_eq!(step, NextStatesStep::Misplaced);
}

#[test]
fn numbers_out_of_range_end_a_session() {
    let long_ago = Card { due: i32::MIN, ..card() };
    let mut keeper_of_old = Keeper { card: Some(long_ago), ..keeper() };
    assert_eq!(keeper_of_old.look(), NextStatesStep::OutOfRange);
    let mut keeper_of_old = Keeper { card: Some(long_ago), ..keeper() };
    assert_eq!(keeper_of_old.answer(&answer(reviewed(80, 0))), AnswerStep::OutOfRange);
    let worn = Card { reps: u32::MAX, ..card() };
    let mut keeper_of_worn = Keeper { card: Some(worn), ..keeper() };
    assert_eq!(keeper_of_worn.answer(&answer(reviewed(80, 0))), AnswerStep::OutOfRange);
    assert!(keeper_of_worn.written.is_empty());
}

#[test]
fn buttons_are_described_in_order() {
    let choices = NextCardStates {
        current: reviewed(30, 35),
        again: forgotten(false),
        hard: CardState::Normal(NormalState::Learning(LearnState {
            remaining_steps: 1,
            scheduled_secs: 7_000,
        })),
        good: reviewed(80, 0),
        easy: CardState::Normal(NormalState::New(NewState { position: 3 })),
    };
    let timing = SchedTimingToday { days_elapsed: 100, next_day_at: 10_000 };
    let describe = |secs: u32, ahead: u32| format!("{}/{}", secs, ahead);
    let texts = COLLECTION
        .describe_next_states(choices, TimestampSecs(4_000), Ok(timing), describe)
        .unwrap();
    assert_eq!(texts, vec!["900/1200", "86400/1200", "6912000/1200", "0/1200"]);
}

#[test]
fn buttons_without_a_day_are_not_described() {
    let state = reviewed(30, 35);
    let choices =
        NextCardStates { current: state, again: state, hard: state, good: state, easy: state };
    let describe = |_: u32, _: u32| String::new();
    let described =
        COLLECTION.describe_next_states(choices, TimestampSecs(0), Err(broken()), describe);
    assert_eq!(described, Err(broken()));
}

#[test]
fn button_shows_what_is_logged() {
    let next = reviewed(80, 0);
    let choices =
        NextCardStates { current: reviewed(30, 35), again: next, hard: next, good: next, easy: next };
    let timing = SchedTimingToday { days_elapsed: 100, next_day_at: 10_000 };
    let describe = |secs: u32, _: u32| format!("{}", secs / 86_400);
    let texts =
        COLLECTION.describe_next_states(choices, TimestampSecs(4_000), Ok(timing), describe);
    let mut keeper = keeper();
    keeper.answer(&answer(next));
    match (keeper.written[0], keeper.written[2]) {
        (Action::AddRevlogEntry(entry), Action::UpdateCard(update)) => {
            assert_eq!(texts.unwrap()[2], format!("{}", entry.interval));
            assert_eq!(update.card.due, 100 + entry.interval);
        }
        _ => panic!("the entry is written first and the card third"),
    }
}
