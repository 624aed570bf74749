use anki::answering::{get_fuzz_seed, Rating};
use anki::card::{Card, CardQueue, CardType};
use anki::deck::{
    Deck, DeckConf, DeckConfInner, DeckKind, FilteredDeck, LeechAction, Multiplier, NormalDeck,
};
use anki::ids::{CardID, DeckConfID, DeckID, NoteID, TimestampSecs};
use anki::states::{
    CardState, FilteredState, LearnState, NewState, NextCardStates, NormalState, PreviewState,
    RelearnState, ReschedulingFilterState, ReviewState,
};
use anki::revlog::RevlogReviewKind;
use anki::timing::SchedTimingToday;
use anki::updater::CardStateUpdater;

fn config() -> DeckConf {
    DeckConf {
        id: DeckConfID(1),
        inner: DeckConfInner {
            learn_steps: vec![60, 600],
            relearn_steps: vec![900],
            graduating_interval_good: 1,
            graduating_interval_easy: 4,
            hard_multiplier: Multiplier(1.2f32.to_bits()),
            easy_multiplier: Multiplier(1.3f32.to_bits()),
            interval_multiplier: Multiplier(1.0f32.to_bits()),
            lapse_multiplier: Multiplier(0.5f32.to_bits()),
            maximum_review_interval: 36_500,
            minimum_lapse_interval: 2,
            leech_threshold: 8,
            leech_action: LeechAction::TagOnly,
        },
    }
}

fn card(ctype: CardType) -> Card {
    Card {
        id: CardID(1_000),
        note_id: NoteID(2_000),
        deck_id: DeckID(1),
        ctype,
        queue: CardQueue::New,
        due: 95,
        interval: 30,
        ease_factor: 2_500,
        reps: 7,
        lapses: 3,
        remaining_steps: 2_001,
        original_due: 0,
        original_deck_id: DeckID(0),
    }
}

fn updater(card: Card, kind: DeckKind) -> CardStateUpdater {
    CardStateUpdater {
        card,
        deck: Deck { id: DeckID(1), kind },
        config: config(),
        timing: SchedTimingToday { days_elapsed: 100, next_day_at: 10_000 },
        now: TimestampSecs(4_000),
        fuzz_seed: Some(1_007),
    }
}

fn normal() -> DeckKind {
    DeckKind::Normal(NormalDeck { config_id: DeckConfID(1) })
}

fn filtered(reschedule: bool) -> DeckKind {
    DeckKind::Filtered(FilteredDeck { reschedule, preview_delay: 10 })
}

fn review(elapsed_days: u32) -> NormalState {
    NormalState::Review(ReviewState {
        scheduled_days: 30,
        elapsed_days,
        ease_factor: 2_500,
        lapses: 3,
        leeched: false,
    })
}

#[test]
fn new_cards_have_a_position() {
    let state = updater(card(CardType::New), normal()).current_card_state();
    assert_eq!(state, CardState::Normal(NormalState::New(NewState { position: 95 })));
    let before_first = Card { due: -4, ..card(CardType::New) };
    let state = updater(before_first, normal()).current_card_state();
    assert_eq!(state, CardState::Normal(NormalState::New(NewState { position: 0 })));
}

#[test]
fn learning_cards_have_a_step() {
    let state = updater(card(CardType::Learn), normal()).current_card_state();
    let expected = LearnState { remaining_steps: 1, scheduled_secs: 600 };
    assert_eq!(state, CardState::Normal(NormalState::Learning(expected)));
}

#[test]
fn overdue_reviews_count_the_days_since() {
    let state = updater(card(CardType::Review), normal()).current_card_state();
    assert_eq!(state, CardState::Normal(review(35)));
}

#[test]
fn reviews_in_normal_decks_are_due_today_at_the_latest() {
    let ahead = Card { due: 110, ..card(CardType::Review) };
    let state = updater(ahead, normal()).current_card_state();
    assert_eq!(state, CardState::Normal(review(30)));
    assert_eq!(state.revlog_kind(), Some(RevlogReviewKind::Review));
}

#[test]
fn reviews_in_filtered_decks_can_be_early() {
    let ahead = Card {
        due: -5,
        original_due: 110,
        original_deck_id: DeckID(4),
        ..card(CardType::Review)
    };
    let state = updater(ahead, filtered(true)).current_card_state();
    let wrapped = ReschedulingFilterState { original_state: review(20) };
    assert_eq!(state, CardState::Filtered(FilteredState::Rescheduling(wrapped)));
    assert_eq!(state.revlog_kind(), Some(RevlogReviewKind::EarlyReview));
}

#[test]
fn far_ahead_reviews_have_no_days_elapsed() {
    let ahead = Card { original_due: 500, original_deck_id: DeckID(4), ..card(CardType::Review) };
    let state = updater(ahead, filtered(true)).current_card_state();
    let wrapped = ReschedulingFilterState { original_state: review(0) };
    assert_eq!(state, CardState::Filtered(FilteredState::Rescheduling(wrapped)));
}

#[test]
fn cleared_original_due_falls_back_to_due() {
    let answered = Card { original_deck_id: DeckID(4), ..card(CardType::Review) };
    let state = updater(answered, filtered(true)).current_card_state();
    let wrapped = ReschedulingFilterState { original_state: review(35) };
    assert_eq!(state, CardState::Filtered(FilteredState::Rescheduling(wrapped)));
}

#[test]
fn relearning_cards_keep_their_review() {
    let state = updater(card(CardType::Relearn), normal()).current_card_state();
    let expected = RelearnState {
        learning: LearnState { remaining_steps: 1, scheduled_secs: 900 },
        review: ReviewState {
            scheduled_days: 30,
            elapsed_days: 30,
            ease_factor: 2_500,
            lapses: 3,
            leeched: false,
        },
    };
    assert_eq!(state, CardState::Normal(NormalState::Relearning(expected)));
}

#[test]
fn previews_wait_for_the_delay_in_minutes() {
    let away = Card { original_due: 110, original_deck_id: DeckID(4), ..card(CardType::Review) };
    let state = updater(away, filtered(false)).current_card_state();
    let wrapped = PreviewState { scheduled_secs: 600, original_state: review(20) };
    assert_eq!(state, CardState::Filtered(FilteredState::Preview(wrapped)));
    assert_eq!(state.revlog_kind(), None);
}

#[test]
fn states_that_cannot_be_held_are_known() {
    assert!(updater(card(CardType::Review), normal()).has_card_state());
    let long_ago = Card { due: i32::MIN, ..card(CardType::Review) };
    assert!(!updater(long_ago, normal()).has_card_state());
    let long_ago_new = Card { due: i32::MIN, ..card(CardType::New) };
    assert!(updater(long_ago_new, normal()).has_card_state());
    let slow = DeckKind::Filtered(FilteredDeck { reschedule: false, preview_delay: 71_582_789 });
    assert!(!updater(card(CardType::New), slow).has_card_state());
    let slow = DeckKind::Filtered(FilteredDeck { reschedule: true, preview_delay: 71_582_789 });
    assert!(updater(card(CardType::New), slow).has_card_state());
}

#[test]
fn context_is_taken_from_options_and_deck() {
    let in_normal = updater(card(CardType::Learn), normal());
    let context = in_normal.state_context();
    assert_eq!(context.fuzz_seed, Some(1_007));
    assert_eq!(context.steps.steps, &vec![60, 600]);
    assert_eq!(context.relearn_steps.steps, &vec![900]);
    assert_eq!(context.graduating_interval_good, 1);
    assert_eq!(context.graduating_interval_easy, 4);
    assert_eq!(f32::from_bits(context.hard_multiplier.0), 1.2);
    assert_eq!(f32::from_bits(context.easy_multiplier.0), 1.3);
    assert_eq!(f32::from_bits(context.interval_multiplier.0), 1.0);
    assert_eq!(f32::from_bits(context.lapse_multiplier.0), 0.5);
    assert_eq!(context.maximum_review_interval, 36_500);
    assert_eq!(context.minimum_lapse_interval, 2);
    assert_eq!(context.leech_threshold, 8);
    assert!(!context.in_filtered_deck);
    assert_eq!(context.preview_step, 0);
    let in_filtered = updater(card(CardType::Learn), filtered(false));
    assert!(in_filtered.state_context().in_filtered_deck);
    assert_eq!(in_filtered.state_context().preview_step, 10);
}

#[test]
fn next_states_are_worked_out_from_state_and_context() {
    let updater = updater(card(CardType::Learn), normal());
    let current = updater.current_card_state();
    let states = updater.next_card_states(|state, context| {
        let good = CardState::Normal(NormalState::New(NewState {
            position: context.graduating_interval_easy,
        }));
        NextCardStates { current: state, again: state, hard: state, good, easy: good }
    });
    assert_eq!(states.current, current);
    assert_eq!(states.again, current);
    assert_eq!(states.good, CardState::Normal(NormalState::New(NewState { position: 4 })));
}

#[test]
fn seed_follows_id_and_reps() {
    assert_eq!(get_fuzz_seed(&card(CardType::New), false), Some(1_007));
    assert_eq!(get_fuzz_seed(&card(CardType::Review), false), Some(1_007));
    assert_eq!(get_fuzz_seed(&card(CardType::New), true), None);
    let negative = Card { id: CardID(-3), reps: 5, ..card(CardType::New) };
    assert_eq!(get_fuzz_seed(&negative, false), Some(2));
}

#[test]
fn ratings_are_numbered_from_one() {
    assert_eq!(Rating::Again.as_number(), 1);
    assert_eq!(Rating::Hard.as_number(), 2);
    assert_eq!(Rating::Good.as_number(), 3);
    assert_eq!(Rating::Easy.as_number(), 4);
}
