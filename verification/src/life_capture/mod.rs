//! Life-capture pipeline: focus-event dedup and parsing.

pub mod dispatcher;
pub mod parser;
pub mod redact;
pub mod runtime;
