//! Input-state aggregation and replay.
//!
//! Converts a stream of raw input events (key up/down, character input,
//! mouse move/click/wheel, multi-touch updates) into a per-frame snapshot
//! that a client can query, synthesizes touch contacts from mouse input
//! (and mouse state from touch input), and replays the raw event stream
//! to registered subscribers.

pub mod chars;
pub mod context;
pub mod events;
pub mod geom;
pub mod keys;
pub mod touch;
