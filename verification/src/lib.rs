//! Scene composition engine and session command dispatcher for a
//! session-based multiplayer world simulation.
//!
//! Given a player's persisted location and the static resource catalog,
//! the library deterministically builds the full entity graph (props,
//! non-player characters, monsters, the player's own party) that the
//! client must render, and processes movement and heartbeat commands
//! with idempotent throttling.

pub mod catalog;
pub mod compose;
pub mod handlers;
pub mod laws;
pub mod motion;
pub mod player;
pub mod scene;
pub mod session;
