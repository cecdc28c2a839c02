//! What the server sends to connected clients and what they answer.

use super::id::{ThreadId, TurnId};
use vstd::prelude::*;

verus! {

/// A message that needs no answer.
#[derive(Debug, Clone)]
pub enum ServerNotification {
    TurnStarted { thread_id: ThreadId, turn_id: TurnId, user_input: String },
    AssistantDelta { thread_id: ThreadId, turn_id: TurnId, delta: String },
    TurnCompleted { thread_id: ThreadId, turn_id: TurnId },
    TurnFailed { thread_id: ThreadId, turn_id: TurnId, error: String },
    ToolCallCompleted { thread_id: ThreadId, turn_id: TurnId, tool_name: String, success: bool },
    Warning { thread_id: ThreadId, message: String },
}

/// A message that a client has to answer.
#[derive(Debug, Clone)]
pub enum ServerRequest {
    ApprovalNeeded {
        thread_id: ThreadId,
        turn_id: TurnId,
        approval_id: String,
        tool_name: String,
        reason: String,
    },
}

/// The answer of a client.
#[derive(Debug, Clone)]
pub enum ClientResponse {
    ApprovalDecision { thread_id: ThreadId, approval_id: String, approved: bool },
}

} // verus!
