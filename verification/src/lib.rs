//! Answering of flashcards.
//!
//! A card is shown, the user presses one of four buttons, and the card moves to another
//! state: [`updater`] reads the state that a card is in, [`applying`] moves it to
//! another one and says what is logged of it, and [`answering`] puts together all that
//! an answer changes. [`collection`] runs the sessions: answering a card, and looking
//! at the states that the answers to a card lead to. A session reads and writes nothing
//! itself. It hands out [`requests`] one at a time and goes on with what came of them.
//!
//! [`laws`] holds what is true of cards and sessions whatever the answer.
//!
//! Two kinds of numbers are kept as integers that elsewhere are fractions. An ease
//! factor is in thousandths, as on cards and in the review log. Learning steps are in
//! seconds.
pub mod answering;
pub mod applying;
pub mod card;
pub mod collection;
pub mod deck;
pub mod error;
pub mod ids;
pub mod interval;
pub mod laws;
pub mod num;
pub mod requests;
pub mod revlog;
pub mod states;
pub mod steps;
pub mod timing;
pub mod updater;
