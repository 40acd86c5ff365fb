//! A minimal fixed-cadence engine for terminal applications.
//!
//! The crate provides the pieces that cooperate inside one frame of a
//! terminal game loop: a key-transition tracker that turns raw held-key
//! snapshots into press/hold/release notifications, a synchronous
//! publish/subscribe event bus, a double-buffered character-cell renderer,
//! and the engine that owns the entities, drains a per-frame command queue
//! and drives update and render passes.
//!
//! All platform work (reading console input, writing to the terminal,
//! sleeping between frames, playing sounds) is left to the embedding
//! application: the engine consumes plain key snapshots and hands back the
//! full frame output as a string.

pub mod engine;
pub mod event;
pub mod game_object;
pub mod helpers;
pub mod input;
pub mod renderer;
