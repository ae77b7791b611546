//! Embedding providers.

pub mod ollama;
