//! A terminal word-guessing game library: a hidden fixed-length target word
//! is guessed in up to six attempts, with per-letter feedback after each guess.
//!
//! The crate holds the verified core: the feedback engine that classifies each
//! guess position against the target (duplicate-aware), the line editor state
//! machine that collects a fixed-length guess from single key events, the game
//! state machine that tracks attempts and the win/loss outcome, and the word
//! selection rules (by day offset or by random draw).

pub mod editor;
pub mod feedback;
pub mod game;
pub mod select;
