//! Scheduled jobs: controller schemas and the delivery of job output to
//! messaging channels.

pub mod bus;
pub mod schemas;
