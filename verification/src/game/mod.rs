//! What the game builds on the machine and the sequencer.

pub mod event;
pub mod message;
pub mod script;
pub mod state;
pub mod ui;
