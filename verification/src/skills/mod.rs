//! Skills: the QuickJS runtime and registry controllers, tool results,
//! and the key/value storage that skills use.

pub mod runtime_rpc;
pub mod schemas;
pub mod storage;
pub mod types;
