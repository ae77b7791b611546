//! Credentials: the checks applied before a session token or provider
//! credentials are stored.

pub mod rpc;
