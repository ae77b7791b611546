//! The client of the backend's agent-integration API.

pub mod client;
