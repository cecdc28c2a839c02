//! Messages between agents and what hosts see of an agent.

use super::id::ThreadId;
use vstd::prelude::*;

verus! {

/// The place of an agent in the tree of agents.
#[derive(Debug, PartialEq, Eq, Hash)]
pub struct AgentPath(pub String);

impl View for AgentPath {
    type V = Seq<char>;

    open spec fn view(&self) -> Seq<char> {
        self.0@
    }
}

impl AgentPath {
    /// The path of the agent at the root.
    pub fn root() -> (r: Self)
        ensures
            r@ == "/root"@,
    {
        AgentPath("/root".to_owned())
    }

    pub fn from_string(s: &str) -> (r: Self)
        ensures
            r@ == s@,
    {
        AgentPath(s.to_owned())
    }

    pub fn as_str(&self) -> (r: &str)
        ensures
            r@ == self@,
    {
        self.0.as_str()
    }

    pub fn to_string(&self) -> (r: String)
        ensures
            r@ == self@,
    {
        self.0.clone()
    }
}

impl Clone for AgentPath {
    fn clone(&self) -> (r: Self)
        ensures
            r == *self,
    {
        AgentPath(self.0.clone())
    }
}

/// A message from one agent to others.
#[derive(Debug, Clone)]
pub struct InterAgentMessage {
    pub author: AgentPath,
    pub recipient: AgentPath,
    pub other_recipients: Vec<AgentPath>,
    pub content: String,
    /// Whether the message starts a new turn at its recipient.
    pub trigger_turn: bool,
}

/// Where an agent stands in its life.
#[derive(Debug, Clone, Copy, PartialEq, Eq, Structural)]
pub enum AgentStatus {
    Running,
    Completed,
    Failed,
    Cancelled,
}

impl AgentStatus {
    /// Whether the agent has come to its end.
    pub fn is_terminal(&self) -> (r: bool)
        ensures
            r == (*self != AgentStatus::Running),
    {
        match self {
            AgentStatus::Completed | AgentStatus::Failed | AgentStatus::Cancelled => true,
            AgentStatus::Running => false,
        }
    }
}

/// What a host sees of an agent.
#[derive(Debug)]
pub struct AgentInfo {
    pub thread_id: ThreadId,
    pub agent_path: AgentPath,
    pub status: AgentStatus,
    pub task: Option<String>,
}

impl Clone for AgentInfo {
    fn clone(&self) -> (r: Self)
        ensures
            r == *self,
    {
        AgentInfo {
            thread_id: self.thread_id.clone(),
            agent_path: self.agent_path.clone(),
            status: self.status,
            task: crate::text::clone_opt(&self.task),
        }
    }
}

} // verus!
