//! Process and component health reporting.

pub mod schemas;
