//! Installation, removal and their undoing on Windows: who may touch the agent's files, and what
//! each step of a transaction may do.

pub mod courses;
pub mod dacl;
pub mod files;
pub mod service;
pub mod steps;
pub mod template;
pub mod transaction;
