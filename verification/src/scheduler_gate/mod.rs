//! Background-AI scheduling gate.

pub mod policy;
