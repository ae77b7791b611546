//! Cross-module domain events.

pub mod events;
