//! Core of a live host-vs-players guessing game: the room registry, the
//! per-room event types, the game lifecycle state machine, and the guess
//! resolution and scoring engine.
#![verifier::loop_isolation(false)]

pub mod codes;
pub mod decimal;
pub mod engine;
pub mod errors;
pub mod events;
pub mod models;
pub mod registry;
pub mod template;
pub mod views;
