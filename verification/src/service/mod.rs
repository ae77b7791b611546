//! Process service management: restart requests.

pub mod bus;
