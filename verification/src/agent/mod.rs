//! Turns of an agent: what a turn is run with, the machine that runs it, and how it
//! goes on after an approval or in a sub-agent.

pub mod config;
pub mod effect;
pub mod preview;
pub mod resume;
pub mod subagent;
pub mod turn;
