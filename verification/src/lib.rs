//! Cho-han: a verified model of the traditional Japanese dice betting game.
//!
//! A player bets mon (the in-game currency) on whether the sum of two
//! six-sided dice is even (cho) or odd (han). Wins pay the bet minus a 10%
//! house fee, truncated; losses forfeit the bet. The game ends when the
//! player quits or the purse reaches zero.

pub mod dice;
pub mod numerals;
pub mod parse;
pub mod purse;
pub mod round;
