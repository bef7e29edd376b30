//! Core logic of a chess application that drives a UCI engine: the text
//! protocol codec, the engine actor's state machine, difficulty levels,
//! analysis lines, studies and board themes.

pub mod actor;
pub mod analysis;
pub mod app_state;
mod clock;
pub mod difficulty;
pub mod game;
pub mod protocol;
pub mod session;
pub mod study;
pub mod text;
pub mod theme;
