//! Delivery of telemetry reports to the server.

pub mod once;
pub mod reporter;
pub mod sampling;
pub mod spool;
pub mod worker;
