//! Verified core of an agent runtime: protocol types, the turn journal, context
//! assembly, policy, provider wire logic and the turn state machine.

pub mod agent;
pub mod capabilities;
pub mod config;
pub mod context;
pub mod deepseek;
pub mod digest;
pub mod engine;
pub mod error;
pub mod events;
pub mod hooks;
pub mod journal;
pub mod json;
pub mod mcp;
pub mod model;
pub mod plugin;
pub mod policy;
pub mod prompt;
pub mod protocol;
pub mod redact;
pub mod runtime;
pub mod sandbox;
pub mod server;
pub mod table;
pub mod text;
