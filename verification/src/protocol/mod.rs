//! The types that hosts, transports and the core share.

pub mod agent;
pub mod approval;
pub mod error;
pub mod event;
pub mod id;
pub mod op;
pub mod permission;
pub mod sandbox;
pub mod server_message;
pub mod thread;
pub mod tool;
pub mod turn;
pub mod usage;
