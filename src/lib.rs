//! Rules engine and solver for a five-letter word-guessing puzzle.

pub mod alphabet;
pub mod bank;
pub mod dict;
pub mod game;
pub mod guess;
pub mod hash_dict;
pub mod letter_bank;
pub mod placement;
pub mod solver;
pub mod strategy;
pub mod strategy_tables;
pub mod word;
pub mod word_list;

pub use guess::Guess;
pub use placement::Placement;
pub use word::Word;
