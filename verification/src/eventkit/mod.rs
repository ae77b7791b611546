//! Calendar and reminders bridge: event and reminder records, the local
//! cache of fetched events, and the controller schemas.

pub mod calendar;
pub mod rpc;
pub mod schemas;
pub mod store;
pub mod types;
