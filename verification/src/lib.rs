//! A number-guessing game as a verified library.
//!
//! The game holds one secret number between 1 and 100. Each line the player
//! types is parsed into a guess, the guess is compared with the secret, and the
//! player is told whether it was too small, too large or right. The game ends
//! with the first right guess.
//!
//! Every function here is total and free of panics, and what each returns is
//! stated in its contract and proved. Three small functions are the exception:
//! the one that draws a random number with the `rand` crate and the two that
//! colour a line with the `console` crate carry contracts that are trusted.
//! Their doc comments say so.

pub mod comparison;
pub mod emphasis;
pub mod game;
pub mod guess;
pub mod notice;
pub mod secret;
