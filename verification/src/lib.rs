//! The verified core of the UnionC host-monitoring agent.

pub mod agent;
pub mod arguments;
pub mod collectors;
pub mod config;
pub mod delivery;
pub mod diagnostics;
pub mod double;
pub mod effective;
pub mod endpoint;
pub mod identifier;
pub mod maintenance;
pub mod pairing;
pub mod platform;
pub mod schedule;
pub mod service_host;
pub mod status;
pub mod text;
pub mod tray;
pub mod wide;
