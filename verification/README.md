# Answering of flashcards

A verified library for one part of a spaced repetition program: what happens when a
card is answered.

- `src/` is the library. Every function in it is verified.
  - `updater` reads the state of a card from the card, its deck, its options and the
    day.
  - `applying` moves a card to another state and says what goes into the review log.
  - `answering` puts together all that an answer changes: the log entry, the deck
    statistics, the card, and the tag of a leech.
  - `collection` holds the sessions. Each is a function from a stage and an event to the
    next stage and the next request.
  - `laws` states what holds of cards and sessions as a whole.
- `app/` performs the requests on a storage backend, reads the clock, and converts
  between the integers of the library and floating-point numbers.
- `tests/` runs the library on concrete cards.

Where a number would not fit, the functions on a single card ask the caller to rule that
out; `has_card_state`, `can_apply` and `has_rollover` tell. The sessions check it
themselves and end with `OutOfRange`.
