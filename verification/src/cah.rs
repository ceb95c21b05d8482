//! The card game: packs of prompts and answers, players and their hands,
//! and how a prompt reads once answers are set into its blanks.

pub mod cards;
pub mod check;
pub mod deal;
pub mod format;
pub mod panels;
pub mod round;
pub mod setup;
pub mod shown;
