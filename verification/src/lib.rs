//! Turn-taking core for a two-player board game frontend.
//!
//! The library coordinates an interactive player and a background
//! computation over a single shared game state: it decides whose turn it
//! is, dispatches at most one background computation at a time, applies
//! results, and keeps a per-square highlight projection consistent with
//! the board's display rotation. The game rules themselves live in an
//! external decision engine; its answers enter the state machine as
//! plain event payloads.

pub mod board;
pub mod controller;
pub mod highlight;
pub mod status;
