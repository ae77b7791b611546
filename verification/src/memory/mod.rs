//! Memory: the namespaces of skill documents, and the request shapes and
//! selection rules of the memory-tree retrieval tools.

pub mod client;
pub mod drill;
pub mod recall;
pub mod retrieval;
