//! Approval requests and the decisions that answer them.

use super::id::{ToolCallId, TurnId};
use vstd::prelude::*;

verus! {

/// The decisions that a host can take.
#[derive(Debug, Clone, Copy, PartialEq, Eq, Structural)]
pub enum ApprovalDecisionKind {
    /// Allow this execution once.
    Approved,
    /// Allow it and remember that for the session.
    ApprovedForSession,
    /// Apply a proposed change of policy and allow it.
    ApprovedExecpolicyAmendment,
    /// Deny this execution.
    Denied,
    /// Abort the current turn.
    Abort,
}

/// What a host is asked when a tool needs authorization.
#[derive(Debug, Clone)]
pub struct ApprovalRequest {
    pub approval_id: String,
    pub turn_id: TurnId,
    pub call_id: ToolCallId,
    pub tool_name: String,
    pub reason: String,
    /// The decisions open to the host.
    pub available_decisions: Vec<ApprovalDecisionKind>,
}

/// The answer of a host.
#[derive(Debug, Clone)]
pub struct ApprovalDecision {
    pub approval_id: String,
    pub decision: ApprovalDecisionKind,
    /// Whether the decision holds for the rest of the session.
    pub remember: bool,
}

} // verus!
