//! Local AI runtime: installing and locating the Ollama binary.

pub mod install;
