//! A terminal word-guessing game library: board state, guess validation,
//! and the feedback-scoring rules, with their contracts.

pub mod board;
pub mod game;
pub mod keyboard;
pub mod letter;
pub mod score;
pub mod words;
