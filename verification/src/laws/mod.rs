//! What holds of the library as a whole.
//!
//! Most laws speak of calls: `call_ensures(f, (x,), y)` says that `y` is a result of
//! calling `f` on `x`. What follows from it is said in terms of the arguments, of the
//! result, and of the results of other calls.
pub mod answers;
pub mod buttons;
pub mod cards;
pub mod loading;
pub mod logging;
pub mod moves;
pub mod numbers;
pub mod reading;
pub mod sessions;
