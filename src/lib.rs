//! The core of a chess analysis tool: decoding the output of a UCI chess
//! engine, keeping the best lines it reports, deciding which commands to
//! send it and when, and the game history and input rules around it.
use vstd::prelude::*;

pub mod analysis;
pub mod commands;
pub mod config;
pub mod engine;
pub mod game;
pub mod input;
pub mod keys;
pub mod pgn;
pub mod protocol;
pub mod session;
pub mod text;
pub mod ui;

verus! {

} // verus!
