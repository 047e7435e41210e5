//! Singleton application windows keyed by a logical identifier, and global key chords
//! bound to opening or focusing them.
//!
//! The library decides; the windowing layer acts. A request yields the step to take
//! (create from a descriptor, focus a handle, close a handle), and the host reports back
//! what the step gave. Every decision is verified against a model of the live windows,
//! the chord bindings and the queue of lifecycle events.

pub mod keyed;
pub mod catalog;
pub mod registry;
pub mod shortcuts;
pub mod manager;
pub mod laws;
pub mod commands;
