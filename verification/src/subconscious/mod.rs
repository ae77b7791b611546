//! The background "subconscious" loop: controller schemas.

pub mod engine;
pub mod schemas;
