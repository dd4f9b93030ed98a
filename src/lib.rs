//! Global input aggregation: cursor reconstruction, modifier tracking and
//! shortcut detection over normalised raw input events.

pub mod keys;
pub mod state;
pub mod events;
pub mod batch;
pub mod engine;
pub mod text;
pub mod laws;
pub mod sources;
