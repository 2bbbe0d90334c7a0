//! The scoring rules and the turn bookkeeping of a four-peg, six-colour
//! code-breaking game.
//!
//! The codemaker picks four different colours in order. The codebreaker
//! submits guesses of four colours, repeats allowed, and learns for each how
//! many pegs have the right colour in the right place and how many more have
//! a right colour in a wrong place.
//!
//! Every function here is verified against a mathematical statement of what
//! it returns. Two functions of the standard library are taken on trust,
//! `str::trim` and `str::to_lowercase`: reading a colour from a line of input
//! goes through both, and its contract speaks of their results by name.
//!
//! - `color`: the palette, and reading a colour from a line of input.
//! - `combination`: the secret, the guess, and the comparison of the two.
//! - `score`: what the two peg counts are, and what holds of them.
//! - `selection`: choosing four different colours for the secret.
//! - `session`: turns, the turn limit, winning and losing.

pub mod color;
pub mod combination;
pub mod score;
pub mod selection;
pub mod session;

pub use color::{get_color_from_input, Color};
pub use combination::{Codebreaker, ColorCombination};
pub use selection::{select_color, ChosenColors, SelectionError};
pub use session::{play_turn, Phase, Session, TurnOutcome, TurnReport, TURN_LIMIT};
