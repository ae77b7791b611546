//! Verified core of the OpenHuman assistant: routing and scheduling
//! policies, event dedup and parsing, reflection cue detection, controller
//! schemas, and the small decision functions that sit between the
//! assistant's I/O layers.

pub mod controller;
pub mod credentials;
pub mod cron;
pub mod embeddings;
pub mod event_bus;
pub mod eventkit;
pub mod health;
pub mod integrations;
pub mod learning;
pub mod local_ai;
pub mod life_capture;
pub mod memory;
pub mod people;
pub mod routing;
pub mod rpc;
pub mod scheduler_gate;
pub mod screen_intelligence;
pub mod service;
pub mod skills;
pub mod subconscious;
pub mod text;
