//! Turns: one round trip between a user and the agent within a thread.

use super::id::{ThreadId, ToolCallId, TurnId};
use crate::json;
use crate::text;
use serde_json::Value;
use vstd::prelude::*;

verus! {

/// Where a turn stands in its life.
#[derive(Debug, Clone, Copy, PartialEq, Eq, Structural)]
pub enum TurnStatus {
    Started,
    Streaming,
    WaitingForApproval,
    ExecutingTool,
    Completed,
    Failed,
    Interrupted,
}

/// One item of the transcript of a turn, kept so that the turn can be rebuilt.
#[derive(Debug)]
pub enum TurnItem {
    UserMessage { content: String },
    AssistantDelta { delta: String },
    AssistantCompleted,
    ReasoningBlock { content: String, replay_required: bool },
    ToolCall { call_id: ToolCallId, tool_name: String, arguments: Value },
    ToolResult { call_id: ToolCallId, tool_name: String, output_preview: Option<String>, success: bool },
    ApprovalDecision { call_id: ToolCallId, approved: bool },
}

/// What a transcript item says, over plain texts.
pub enum ItemView {
    UserMessage { content: Seq<char> },
    AssistantDelta { delta: Seq<char> },
    AssistantCompleted,
    ReasoningBlock { content: Seq<char>, replay_required: bool },
    ToolCall { call_id: Seq<char>, tool_name: Seq<char>, arguments: Seq<char> },
    ToolResult { call_id: Seq<char>, tool_name: Seq<char>, output_preview: Option<Seq<char>>, success: bool },
    ApprovalDecision { call_id: Seq<char>, approved: bool },
}

impl View for TurnItem {
    type V = ItemView;

    open spec fn view(&self) -> ItemView {
        match *self {
            TurnItem::UserMessage { content } => ItemView::UserMessage { content: content@ },
            TurnItem::AssistantDelta { delta } => ItemView::AssistantDelta { delta: delta@ },
            TurnItem::AssistantCompleted => ItemView::AssistantCompleted,
            TurnItem::ReasoningBlock { content, replay_required } => ItemView::ReasoningBlock { content: content@, replay_required },
            TurnItem::ToolCall { call_id, tool_name, arguments } => ItemView::ToolCall { call_id: call_id@, tool_name: tool_name@, arguments: json::json_text(arguments) },
            TurnItem::ToolResult { call_id, tool_name, output_preview, success } => ItemView::ToolResult { call_id: call_id@, tool_name: tool_name@, output_preview: text::opt_text(output_preview), success },
            TurnItem::ApprovalDecision { call_id, approved } => ItemView::ApprovalDecision { call_id: call_id@, approved },
        }
    }
}

impl Clone for TurnItem {
    fn clone(&self) -> (r: Self)
        ensures
            r@ == self@,
    {
        match self {
            TurnItem::UserMessage { content } => TurnItem::UserMessage { content: content.clone() },
            TurnItem::AssistantDelta { delta } => TurnItem::AssistantDelta { delta: delta.clone() },
            TurnItem::AssistantCompleted => TurnItem::AssistantCompleted,
            TurnItem::ReasoningBlock { content, replay_required } => TurnItem::ReasoningBlock { content: content.clone(), replay_required: *replay_required },
            TurnItem::ToolCall { call_id, tool_name, arguments } => TurnItem::ToolCall { call_id: call_id.clone(), tool_name: tool_name.clone(), arguments: arguments.clone() },
            TurnItem::ToolResult { call_id, tool_name, output_preview, success } => TurnItem::ToolResult { call_id: call_id.clone(), tool_name: tool_name.clone(), output_preview: text::clone_opt(output_preview), success: *success },
            TurnItem::ApprovalDecision { call_id, approved } => TurnItem::ApprovalDecision { call_id: call_id.clone(), approved: *approved },
        }
    }
}

/// A turn within a thread.
#[derive(Debug)]
pub struct Turn {
    pub id: TurnId,
    pub thread_id: ThreadId,
    pub status: TurnStatus,
    pub user_input: String,
    pub created_at: i64,
    pub completed_at: Option<i64>,
    pub model: Option<String>,
    pub model_provider: Option<String>,
    pub parent_turn_id: Option<TurnId>,
    pub parent_thread_id: Option<ThreadId>,
    pub subagent_id: Option<String>,
}

/// A turn, over plain texts.
pub struct TurnView {
    pub id: Seq<char>,
    pub thread_id: Seq<char>,
    pub status: TurnStatus,
    pub user_input: Seq<char>,
    pub created_at: i64,
    pub completed_at: Option<i64>,
    pub model: Option<Seq<char>>,
    pub model_provider: Option<Seq<char>>,
    pub parent_turn_id: Option<Seq<char>>,
    pub parent_thread_id: Option<Seq<char>>,
    pub subagent_id: Option<Seq<char>>,
}

impl View for Turn {
    type V = TurnView;

    open spec fn view(&self) -> TurnView {
        TurnView {
            id: self.id@,
            thread_id: self.thread_id@,
            status: self.status,
            user_input: self.user_input@,
            created_at: self.created_at,
            completed_at: self.completed_at,
            model: text::opt_text(self.model),
            model_provider: text::opt_text(self.model_provider),
            parent_turn_id: (match self.parent_turn_id { Some(v) => Some(v@), None => None }),
            parent_thread_id: (match self.parent_thread_id { Some(v) => Some(v@), None => None }),
            subagent_id: text::opt_text(self.subagent_id),
        }
    }
}

impl Clone for Turn {
    fn clone(&self) -> (r: Self)
        ensures
            r@ == self@,
    {
        Turn {
            id: self.id.clone(),
            thread_id: self.thread_id.clone(),
            status: self.status,
            user_input: self.user_input.clone(),
            created_at: self.created_at,
            completed_at: self.completed_at,
            model: text::clone_opt(&self.model),
            model_provider: text::clone_opt(&self.model_provider),
            parent_turn_id: (match &self.parent_turn_id { Some(v) => Some(v.clone()), None => None }),
            parent_thread_id: (match &self.parent_thread_id { Some(v) => Some(v.clone()), None => None }),
            subagent_id: text::clone_opt(&self.subagent_id),
        }
    }
}

/// A request for a new turn.
#[derive(Debug)]
pub struct CreateTurnRequest {
    pub input: String,
    pub model: Option<String>,
    pub parent_turn_id: Option<TurnId>,
    pub subagent_id: Option<String>,
    pub max_token_budget: Option<u64>,
}

/// A request for a new turn, over plain texts.
pub struct CreateTurnView {
    pub input: Seq<char>,
    pub model: Option<Seq<char>>,
    pub parent_turn_id: Option<Seq<char>>,
    pub subagent_id: Option<Seq<char>>,
    pub max_token_budget: Option<u64>,
}

impl View for CreateTurnRequest {
    type V = CreateTurnView;

    open spec fn view(&self) -> CreateTurnView {
        CreateTurnView {
            input: self.input@,
            model: text::opt_text(self.model),
            parent_turn_id: (match self.parent_turn_id { Some(v) => Some(v@), None => None }),
            subagent_id: text::opt_text(self.subagent_id),
            max_token_budget: self.max_token_budget,
        }
    }
}

impl Clone for CreateTurnRequest {
    fn clone(&self) -> (r: Self)
        ensures
            r@ == self@,
    {
        CreateTurnRequest {
            input: self.input.clone(),
            model: text::clone_opt(&self.model),
            parent_turn_id: (match &self.parent_turn_id { Some(v) => Some(v.clone()), None => None }),
            subagent_id: text::clone_opt(&self.subagent_id),
            max_token_budget: self.max_token_budget,
        }
    }
}

/// What is seen of a turn item is all that it holds.
pub proof fn law_turn_item_is_seen_whole(t: TurnItem)
    ensures
        t matches TurnItem::UserMessage { content } ==> t@ == (ItemView::UserMessage { content: content@ }),
        t matches TurnItem::AssistantDelta { delta } ==> t@ == (ItemView::AssistantDelta { delta: delta@ }),
        t is AssistantCompleted ==> t@ is AssistantCompleted,
        t matches TurnItem::ReasoningBlock { content, replay_required } ==> t@ == (ItemView::ReasoningBlock { content: content@, replay_required }),
        t matches TurnItem::ToolCall { call_id, tool_name, arguments } ==> t@ == (ItemView::ToolCall { call_id: call_id@, tool_name: tool_name@, arguments: json::json_text(arguments) }),
        t matches TurnItem::ToolResult { call_id, tool_name, output_preview, success } ==> t@ == (ItemView::ToolResult { call_id: call_id@, tool_name: tool_name@, output_preview: text::opt_text(output_preview), success }),
        t matches TurnItem::ApprovalDecision { call_id, approved } ==> t@ == (ItemView::ApprovalDecision { call_id: call_id@, approved }),
{
}

/// What is seen of a turn is all that it holds.
pub proof fn law_turn_is_seen_whole(t: Turn)
    ensures
        t@.id == t.id@,
        t@.thread_id == t.thread_id@,
        t@.status == t.status,
        t@.user_input == t.user_input@,
        t@.created_at == t.created_at,
        t@.completed_at == t.completed_at,
        t@.model == text::opt_text(t.model),
        t@.model_provider == text::opt_text(t.model_provider),
        t@.parent_turn_id == (match t.parent_turn_id { Some(v) => Some(v@), None => None }),
        t@.parent_thread_id == (match t.parent_thread_id { Some(v) => Some(v@), None => None }),
        t@.subagent_id == text::opt_text(t.subagent_id),
{
}

} // verus!
