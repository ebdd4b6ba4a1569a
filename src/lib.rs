//! A number-guessing game: a validated guess type, the rules that turn one
//! line of input into a reply, and the game loop over a sequence of lines.
pub mod game;
pub mod guess;
pub mod input;

pub use game::{Game, Reply};
pub use guess::{Guess, ValError};
