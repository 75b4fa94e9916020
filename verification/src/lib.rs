//! Decisions of a puzzle-hunt chat bot: team registration and login,
//! question progression, paid hints and giveaways, and the leaderboard.
//!
//! Every command is a small state machine: it asks for database lookups
//! one at a time and ends in a plan of writes and replies that the caller
//! carries out.

pub mod auth;
pub mod clock;
pub mod flow;
pub mod game;
pub mod handler;
pub mod help;
pub mod laws;
pub mod leaderboard;
pub mod model;
pub mod password;
pub mod seed;
pub mod text;
