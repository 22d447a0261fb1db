//! The tray companion: its private control page, the pairing that it drives, and its view of the
//! server.

pub mod broker;
pub mod child;
pub mod control;
pub mod elevated;
pub mod events;
pub mod http;
pub mod operation;
pub mod pipe;
pub mod preferences;
pub mod probe;
pub mod service;
pub mod session;
pub mod window;
pub mod words;
