//! Screen capture, accessibility automation, and vision summaries: the
//! server's state and configuration, the foreground-window context, and
//! the selection rules of the vision queries.

pub mod context;
pub mod limits;
pub mod server;
pub mod vision;
