//! Games that are played through messages: the panels that show a game, the
//! buttons and menus on them, and what pressing them means.

pub mod flow;
pub mod grid;
pub mod options;
pub mod panel;
pub mod select;
pub mod table;
