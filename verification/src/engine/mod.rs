//! Sessions, turns and agents: the state that the core keeps of each.

pub mod agent_control;
pub mod approval;
pub mod compaction;
pub mod mailbox;
pub mod request_compiler;
pub mod session;
pub mod session_loop;
pub mod turn_coordinator;
pub mod turn_fsm;
