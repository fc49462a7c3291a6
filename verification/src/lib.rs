//! A turn-based board-game engine in the Monopoly family: a fixed 40-square
//! board, purchasable streets, stations and utilities, card decks, jail,
//! building economics and insolvency handling.
//!
//! The engine itself is deterministic: dice rolls and menu decisions are
//! supplied by the caller, and every rule of the game is stated in the
//! contracts of the functions that implement it.  Shuffling the card decks is
//! the one place where an outside source of randomness enters, behind a
//! trusted wrapper around the `rand` crate.

pub mod square;
pub mod card;
pub mod player;
pub mod dice;
pub mod deck;
pub mod game;
pub mod actions;
pub mod parse;
pub mod dialog;
pub mod console;









