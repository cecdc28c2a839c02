//! Child agents that run as threads of their own.

use super::error::{RuntimeError, RuntimeErrorView};
use crate::digest;
use crate::engine::agent_control::AgentControl;
use crate::protocol::agent::{AgentPath, InterAgentMessage};
use crate::protocol::id;
use crate::protocol::id::ThreadId;
use crate::protocol::thread::CreateThreadRequest;
use crate::protocol::turn::{CreateTurnRequest, Turn, TurnStatus};
use crate::text;
use vstd::prelude::*;

verus! {

/// The name of a status in messages between agents.
pub open spec fn status_label(s: TurnStatus) -> Seq<char> {
    match s {
        TurnStatus::Started => "Started"@,
        TurnStatus::Streaming => "Streaming"@,
        TurnStatus::WaitingForApproval => "WaitingForApproval"@,
        TurnStatus::ExecutingTool => "ExecutingTool"@,
        TurnStatus::Completed => "Completed"@,
        TurnStatus::Failed => "Failed"@,
        TurnStatus::Interrupted => "Interrupted"@,
    }
}

pub fn status_label_text(s: TurnStatus) -> (r: &'static str)
    ensures
        r@ == status_label(s),
{
    match s {
        TurnStatus::Started => "Started",
        TurnStatus::Streaming => "Streaming",
        TurnStatus::WaitingForApproval => "WaitingForApproval",
        TurnStatus::ExecutingTool => "ExecutingTool",
        TurnStatus::Completed => "Completed",
        TurnStatus::Failed => "Failed",
        TurnStatus::Interrupted => "Interrupted",
    }
}

/// What a child agent is started with: its thread and its one turn.
#[derive(Debug)]
pub struct ChildPlan {
    pub thread: CreateThreadRequest,
    pub turn: CreateTurnRequest,
}

impl ChildPlan {
    /// Whether the plan is that of a child of a thread with a task and a model.
    pub open spec fn is_for(&self, parent: ThreadId, task: String, model: Seq<char>) -> bool {
        &&& self.thread.workspace@ == "/tmp/child"@
        &&& text::opt_text(self.thread.model) == Some(model)
        &&& self.thread.model_provider is None
        &&& self.thread.name matches Some(n) && id::is_fresh_id(n@, "child-"@)
        &&& self.thread.approval_policy is None
        &&& self.thread.sandbox is None
        &&& self.thread.parent_thread_id == Some(parent)
        &&& self.thread.ephemeral
        &&& self.turn.input == task
        &&& text::opt_text(self.turn.model) == Some(model)
        &&& self.turn.parent_turn_id is None
        &&& self.turn.subagent_id is None
        &&& self.turn.max_token_budget is None
    }
}

/// Plans a child agent of a thread, where the limit on agents allows one.
pub fn spawn_child_agent(
    control: &AgentControl,
    parent: ThreadId,
    task: String,
    model: &str,
) -> (r: Result<ChildPlan, RuntimeError>)
    ensures
        if control.max_depth > 0 {
            r matches Ok(p) && p.is_for(parent, task, model@)
        } else {
            r matches Err(e) && e@ == RuntimeErrorView::InvalidTransition(
                "agent spawn limit reached"@,
            )
        },
{
    if !control.can_spawn(0) {
        return Err(RuntimeError::InvalidTransition(text::owned("agent spawn limit reached")));
    }
    let unique = digest::random_uuid();
    let name = text::cat("child-", unique.as_str());
    proof {
        id::lemma_fresh_id("child-"@, unique@);
    }
    Ok(
        ChildPlan {
            thread: CreateThreadRequest {
                workspace: text::owned("/tmp/child"),
                model: Some(text::owned(model)),
                model_provider: None,
                name: Some(name),
                approval_policy: None,
                sandbox: None,
                parent_thread_id: Some(parent),
                ephemeral: true,
            },
            turn: CreateTurnRequest {
                input: task,
                model: Some(text::owned(model)),
                parent_turn_id: None,
                subagent_id: None,
                max_token_budget: None,
            },
        },
    )
}

/// What a child tells its parent of its end.
pub open spec fn report_text(result: Result<Turn, RuntimeError>) -> Seq<char> {
    match result {
        Ok(turn) => "child completed: "@ + status_label(turn.status),
        Err(e) => "child failed: "@ + e@.text(),
    }
}

/// Reports the end of a child to the agent at the root. The message starts a turn there.
pub fn child_report(child: &ThreadId, result: &Result<Turn, RuntimeError>) -> (r: InterAgentMessage)
    ensures
        r.author@ == "/root/child-"@ + child@,
        r.recipient@ == "/root"@,
        r.other_recipients@.len() == 0,
        r.content@ == report_text(*result),
        r.trigger_turn,
{
    let author = text::cat("/root/child-", child.as_str());
    let content = match result {
        Ok(turn) => text::cat("child completed: ", status_label_text(turn.status)),
        Err(e) => {
            let message = e.to_string();
            text::cat("child failed: ", message.as_str())
        },
    };
    InterAgentMessage {
        author: AgentPath::from_string(author.as_str()),
        recipient: AgentPath::root(),
        other_recipients: Vec::new(),
        content,
        trigger_turn: true,
    }
}

/// A child works on the task it was given, with the given model, as a thread of its own
/// under its parent that is thrown away.
pub proof fn law_child_gets_its_task(p: ChildPlan, parent: ThreadId, task: String, model: Seq<char>)
    requires
        p.is_for(parent, task, model),
    ensures
        p.turn.input@ == task@,
        p.turn.model matches Some(m) && m@ == model,
        p.thread.model matches Some(m) && m@ == model,
        p.thread.parent_thread_id matches Some(t) && t@ == parent@,
        p.thread.ephemeral,
        p.thread.workspace@ == "/tmp/child"@,
        p.thread.sandbox is None,
        p.thread.approval_policy is None,
        p.turn.parent_turn_id is None,
        p.turn.subagent_id is None,
        p.turn.max_token_budget is None,
{
}

/// The report of a child says how its turn ended: as what it completed, or with which error
/// it failed.
pub proof fn law_report_says_how_it_ended(result: Result<Turn, RuntimeError>)
    ensures
        result matches Ok(t) ==> report_text(result) == "child completed: "@ + status_label(
            t.status,
        ),
        result matches Ok(t) ==> t.status is Completed ==> report_text(result)
            == "child completed: "@ + "Completed"@,
        result matches Ok(t) ==> t.status is Failed ==> report_text(result)
            == "child completed: "@ + "Failed"@,
        result matches Ok(t) ==> t.status is WaitingForApproval ==> report_text(result)
            == "child completed: "@ + "WaitingForApproval"@,
        result matches Ok(t) ==> t.status is Interrupted ==> report_text(result)
            == "child completed: "@ + "Interrupted"@,
        result matches Err(e) ==> report_text(result) == "child failed: "@ + e@.text(),
{
}

/// No two statuses have the same label.
pub proof fn law_labels_are_told_apart(a: TurnStatus, b: TurnStatus)
    ensures
        status_label(a) == status_label(b) ==> a == b,
{
    reveal_strlit("Started");
    reveal_strlit("Streaming");
    reveal_strlit("WaitingForApproval");
    reveal_strlit("ExecutingTool");
    reveal_strlit("Completed");
    reveal_strlit("Failed");
    reveal_strlit("Interrupted");
    assert("Started"@.len() == 7);
    assert("Streaming"@.len() == 9 && "Streaming"@[0] == 'S');
    assert("WaitingForApproval"@.len() == 18);
    assert("ExecutingTool"@.len() == 13);
    assert("Completed"@.len() == 9 && "Completed"@[0] == 'C');
    assert("Failed"@.len() == 6);
    assert("Interrupted"@.len() == 11);
}

} // verus!
