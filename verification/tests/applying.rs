use anki::card::{Card, CardQueue, CardType};
use anki::deck::{
    Deck, DeckConf, DeckConfInner, DeckKind, FilteredDeck, LeechAction, Multiplier, NormalDeck,
};
use anki::error::{AnkiError, InvalidInput};
use anki::ids::{CardID, DeckConfID, DeckID, NoteID, TimestampMillis, TimestampSecs, Usn};
use anki::interval::IntervalKind;
use anki::revlog::{RevlogEntryPartial, RevlogReviewKind};
use anki::states::{
    CardState, FilteredState, LearnState, NewState, NormalState, PreviewState, RelearnState,
    ReschedulingFilterState, ReviewState,
};
use anki::timing::SchedTimingToday;
use anki::updater::CardStateUpdater;

const CLOCK: TimestampSecs = TimestampSecs(4_005);

fn card() -> Card {
    Card {
        id: CardID(1_000),
        note_id: NoteID(2_000),
        deck_id: DeckID(1),
        ctype: CardType::Review,
        queue: CardQueue::Review,
        due: 95,
        interval: 30,
        ease_factor: 2_500,
        reps: 7,
        lapses: 3,
        remaining_steps: 0,
        original_due: 0,
        original_deck_id: DeckID(0),
    }
}

fn away() -> Card {
    Card { deck_id: DeckID(9), original_due: 95, original_deck_id: DeckID(1), ..card() }
}

fn updater(card: Card, kind: DeckKind, leech_action: LeechAction) -> CardStateUpdater {
    CardStateUpdater {
        card,
        deck: Deck { id: card.deck_id, kind },
        config: DeckConf {
            id: DeckConfID(1),
            inner: DeckConfInner {
                learn_steps: vec![60, 600],
                relearn_steps: vec![900],
                graduating_interval_good: 1,
                graduating_interval_easy: 4,
                hard_multiplier: Multiplier(0),
                easy_multiplier: Multiplier(0),
                interval_multiplier: Multiplier(0),
                lapse_multiplier: Multiplier(0),
                maximum_review_interval: 36_500,
                minimum_lapse_interval: 1,
                leech_threshold: 8,
                leech_action,
            },
        },
        timing: SchedTimingToday { days_elapsed: 100, next_day_at: 10_000 },
        now: TimestampSecs(4_000),
        fuzz_seed: None,
    }
}

fn in_normal(card: Card) -> CardStateUpdater {
    let kind = DeckKind::Normal(NormalDeck { config_id: DeckConfID(1) });
    updater(card, kind, LeechAction::Suspend)
}

fn in_filtered(card: Card, reschedule: bool) -> CardStateUpdater {
    let kind = DeckKind::Filtered(FilteredDeck { reschedule, preview_delay: 10 });
    updater(card, kind, LeechAction::Suspend)
}

fn learning(scheduled_secs: u32) -> NormalState {
    NormalState::Learning(LearnState { remaining_steps: 2, scheduled_secs })
}

fn review_state(scheduled_days: u32, leeched: bool) -> ReviewState {
    ReviewState { scheduled_days, elapsed_days: 0, ease_factor: 2_650, lapses: 4, leeched }
}

fn relearning(scheduled_secs: u32, leeched: bool) -> NormalState {
    NormalState::Relearning(RelearnState {
        learning: LearnState { remaining_steps: 1, scheduled_secs },
        review: review_state(15, leeched),
    })
}

fn preview(original_state: NormalState) -> CardState {
    CardState::Filtered(FilteredState::Preview(PreviewState {
        scheduled_secs: 600,
        original_state,
    }))
}

fn rescheduling(original_state: NormalState) -> CardState {
    CardState::Filtered(FilteredState::Rescheduling(ReschedulingFilterState { original_state }))
}

fn apply(
    updater: &mut CardStateUpdater,
    next: CardState,
) -> Result<Option<RevlogEntryPartial>, AnkiError> {
    let current = updater.current_card_state();
    assert!(updater.can_apply(current, next, CLOCK));
    updater.apply_study_state(current, next, CLOCK)
}

#[test]
fn new_state_sets_the_position() {
    let mut updater = in_normal(card());
    let next = CardState::Normal(NormalState::New(NewState { position: 12 }));
    let logged = apply(&mut updater, next).unwrap().unwrap();
    let expected = Card {
        ctype: CardType::New,
        queue: CardQueue::New,
        due: 12,
        reps: 8,
        ..card()
    };
    assert_eq!(updater.card, expected);
    assert_eq!(updater.current_card_state(), next);
    assert_eq!(logged.interval, IntervalKind::InSecs(0));
    assert_eq!(logged.last_interval, IntervalKind::InDays(30));
    assert_eq!(logged.ease_factor, 0);
    assert_eq!(logged.review_kind, RevlogReviewKind::Review);
}

#[test]
fn learning_step_today_is_due_at_a_time() {
    let mut updater = in_normal(card());
    let logged = apply(&mut updater, CardState::Normal(learning(600))).unwrap().unwrap();
    let expected = Card {
        ctype: CardType::Learn,
        queue: CardQueue::Learn,
        due: 4_605,
        reps: 8,
        remaining_steps: 2,
        ..card()
    };
    assert_eq!(updater.card, expected);
    assert_eq!(logged.interval, IntervalKind::InSecs(600));
    assert_eq!(logged.ease_factor, 0);
}

#[test]
fn learning_step_past_today_is_due_on_a_day() {
    let mut updater = in_normal(card());
    let logged = apply(&mut updater, CardState::Normal(learning(6_000))).unwrap().unwrap();
    assert_eq!(updater.card.queue, CardQueue::DayLearn);
    assert_eq!(updater.card.due, 101);
    assert_eq!(logged.interval, IntervalKind::InDays(1));
}

#[test]
fn review_is_due_after_the_interval() {
    let mut updater = in_normal(card());
    let next = CardState::Normal(NormalState::Review(review_state(80, false)));
    let logged = apply(&mut updater, next).unwrap().unwrap();
    let expected = Card {
        due: 180,
        interval: 80,
        ease_factor: 2_650,
        reps: 8,
        lapses: 4,
        ..card()
    };
    assert_eq!(updater.card, expected);
    assert_eq!(logged.interval, IntervalKind::InDays(80));
    assert_eq!(logged.ease_factor, 2_650);
    let read_back = ReviewState { elapsed_days: 80, ..review_state(80, false) };
    assert_eq!(updater.current_card_state(), CardState::Normal(NormalState::Review(read_back)));
}

#[test]
fn ease_stops_at_what_a_card_can_hold() {
    let mut updater = in_normal(card());
    let easy = ReviewState { ease_factor: 70_000, ..review_state(80, false) };
    let logged = apply(&mut updater, CardState::Normal(NormalState::Review(easy)));
    assert_eq!(updater.card.ease_factor, 65_535);
    assert_eq!(logged.unwrap().unwrap().ease_factor, 70_000);
}

#[test]
fn relearning_keeps_ease_and_lapses_on_the_card() {
    let mut updater = in_normal(card());
    let logged = apply(&mut updater, CardState::Normal(relearning(900, false))).unwrap().unwrap();
    let expected = Card {
        ctype: CardType::Relearn,
        queue: CardQueue::Learn,
        due: 4_905,
        interval: 15,
        reps: 8,
        remaining_steps: 1,
        ..card()
    };
    assert_eq!(updater.card, expected);
    assert_eq!(logged.ease_factor, 2_650);
    assert_eq!(logged.interval, IntervalKind::InSecs(900));
}

#[test]
fn relearning_step_past_today_is_due_on_a_day() {
    let mut updater = in_normal(card());
    apply(&mut updater, CardState::Normal(relearning(92_400, false))).unwrap();
    assert_eq!(updater.card.queue, CardQueue::DayLearn);
    assert_eq!(updater.card.due, 102);
}

#[test]
fn leeches_are_suspended_if_the_options_say_so() {
    let next = CardState::Normal(relearning(900, true));
    let mut suspending = in_normal(card());
    apply(&mut suspending, next).unwrap();
    assert_eq!(suspending.card.queue, CardQueue::Suspended);
    let kind = DeckKind::Normal(NormalDeck { config_id: DeckConfID(1) });
    let mut tagging = updater(card(), kind, LeechAction::TagOnly);
    apply(&mut tagging, next).unwrap();
    assert_eq!(tagging.card.queue, CardQueue::Learn);
}

#[test]
fn previews_change_queue_and_due_only() {
    let mut updater = in_filtered(away(), false);
    let next = preview(NormalState::Review(review_state(80, false)));
    let logged = apply(&mut updater, next);
    assert_eq!(logged, Ok(None));
    let expected = Card { queue: CardQueue::PreviewRepeat, due: 4_605, ..away() };
    assert_eq!(updater.card, expected);
}

#[test]
fn leaving_a_preview_is_not_counted() {
    let mut updater = in_filtered(away(), false);
    let logged = apply(&mut updater, CardState::Normal(learning(60)));
    assert_eq!(logged, Ok(None));
    assert_eq!(updater.card.reps, 7);
    assert_eq!(updater.card.original_due, 95);
    assert_eq!(updater.card.original_deck_id, DeckID(1));
}

#[test]
fn rescheduling_counts_twice_and_goes_home_for_review() {
    let mut updater = in_filtered(away(), true);
    let next = rescheduling(NormalState::Review(review_state(80, false)));
    let logged = apply(&mut updater, next).unwrap().unwrap();
    let expected = Card {
        deck_id: DeckID(1),
        due: 180,
        interval: 80,
        ease_factor: 2_650,
        reps: 9,
        lapses: 4,
        original_due: 0,
        original_deck_id: DeckID(0),
        ..card()
    };
    assert_eq!(updater.card, expected);
    assert_eq!(logged.interval, IntervalKind::InDays(80));
    assert_eq!(logged.last_interval, IntervalKind::InDays(30));
}

#[test]
fn rescheduling_into_relearning_stays_in_the_filtered_deck() {
    let mut updater = in_filtered(away(), true);
    apply(&mut updater, rescheduling(relearning(900, false))).unwrap();
    assert_eq!(updater.card.deck_id, DeckID(9));
    assert_eq!(updater.card.original_deck_id, DeckID(1));
    assert_eq!(updater.card.original_due, 0);
    assert_eq!(updater.card.reps, 9);
}

#[test]
fn filtered_states_are_refused_outside_filtered_decks() {
    for next in [preview(learning(60)), rescheduling(learning(60))] {
        let mut updater = in_normal(card());
        let refused = Err(AnkiError::InvalidInput(InvalidInput::NotInFilteredDeck));
        assert_eq!(apply(&mut updater, next), refused);
        assert_eq!(updater.card, Card { reps: 8, ..card() });
    }
    assert_eq!(
        InvalidInput::NotInFilteredDeck.summary(),
        "card answering can't transition into filtered state"
    );
    assert!(in_filtered(away(), true).ensure_filtered().is_ok());
}

#[test]
fn numbers_that_cannot_be_held_are_known() {
    let current = in_normal(card()).current_card_state();
    let next = CardState::Normal(learning(60));
    let worn = in_normal(Card { reps: u32::MAX, ..card() });
    assert!(!worn.can_apply(current, next, CLOCK));
    let worn = in_filtered(Card { reps: u32::MAX - 1, ..away() }, true);
    assert!(worn.can_apply(current, next, CLOCK));
    assert!(!worn.can_apply(current, rescheduling(learning(60)), CLOCK));
    let fresh = in_normal(card());
    assert!(!fresh.can_apply(current, next, TimestampSecs(i32::MAX as i64 - 59)));
    assert!(fresh.can_apply(current, next, TimestampSecs(i32::MAX as i64 - 60)));
    let far = CardState::Normal(NormalState::Review(review_state(u32::MAX - 99, false)));
    assert!(!fresh.can_apply(current, far, CLOCK));
}

#[test]
fn entries_are_completed() {
    let partial = RevlogEntryPartial {
        interval: IntervalKind::InSecs(600),
        last_interval: IntervalKind::InDays(30),
        ease_factor: 2_500,
        review_kind: RevlogReviewKind::Relearning,
    };
    let entry =
        partial.into_revlog_entry(Usn(-1), CardID(5), 3, TimestampMillis(123_456), 7_890);
    assert_eq!(entry.id, TimestampMillis(123_456));
    assert_eq!(entry.cid, CardID(5));
    assert_eq!(entry.usn, Usn(-1));
    assert_eq!(entry.button_chosen, 3);
    assert_eq!(entry.interval, -600);
    assert_eq!(entry.last_interval, 30);
    assert_eq!(entry.ease_factor, 2_500);
    assert_eq!(entry.taken_millis, 7_890);
    assert_eq!(entry.review_kind, RevlogReviewKind::Relearning);
}
