//! Local/remote model routing.

pub mod health;
pub mod policy;
pub mod provider;
