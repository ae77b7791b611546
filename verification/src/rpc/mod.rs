//! Shared types for the JSON-RPC / CLI controller surfaces of each domain.

use vstd::prelude::*;

verus! {

/// Successful RPC handler result: the value plus log lines.
#[derive(Debug)]
pub struct RpcOutcome<T> {
    pub value: T,
    pub logs: Vec<String>,
}

impl<T> RpcOutcome<T> {
    /// An outcome with the given value and log lines.
    pub fn new(value: T, logs: Vec<String>) -> (r: Self)
        ensures
            r.value == value,
            r.logs@ == logs@,
    {
        Self { value, logs }
    }

    /// An outcome with the given value and exactly one log line.
    pub fn single_log(value: T, log: String) -> (r: Self)
        ensures
            r.value == value,
            r.logs@.len() == 1,
            r.logs@[0]@ == log@,
    {
        Self { value, logs: vec![log] }
    }
}

} // verus!
