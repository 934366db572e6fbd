//! The core of a scripted game: a stack-based bytecode interpreter for game
//! scripts, and a sequencer that advances per-object actions tick by tick.
//!
//! Every function here carries a contract that is checked statically.

pub mod sequence;
pub mod vm;
pub mod game;
