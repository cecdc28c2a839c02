//! The append-only journal of turns and its projection into host-visible events.

use crate::json;
use crate::protocol::event::{EventFrame, FrameView, ReasoningVisibility};
use crate::protocol::id::{MessageId, SubagentId, ThreadId, ToolCallId, TurnId};
use crate::table::Table;
use crate::text;
use serde_json::Value;
use vstd::prelude::*;

verus! {

/// One thing that happened in a turn. The journal is the source of truth for turns.
#[derive(Debug)]
pub enum JournalEntry {
    TurnStarted { user_input: String },
    TurnCompleted,
    TurnFailed { error: String },
    AssistantDelta { message_id: MessageId, delta: String },
    AssistantCompleted { message_id: MessageId },
    ReasoningBlock { message_id: MessageId, content: String, replay_required: bool },
    ReasoningDelta { message_id: MessageId, delta: String, replay_required: bool },
    ToolCallRequested { call_id: ToolCallId, tool_name: String, arguments: Value },
    ToolCallArgumentsDelta { call_id: ToolCallId, delta: String },
    ToolCallApproved { call_id: ToolCallId },
    ToolCallRejected { call_id: ToolCallId },
    ToolCallCompleted { call_id: ToolCallId, tool_name: String, success: bool, output: Option<String>, output_preview: Option<String> },
    ToolCallFailed { call_id: ToolCallId, error: String },
    ApprovalPending { call_id: ToolCallId, approval_id: String, tool_name: String, arguments: Value, reason: String, model: String, workspace: String, config_json: String },
    ApprovalResolved { approval_id: String, approved: bool },
    SubagentSpawned { parent_turn_id: TurnId, subagent_id: SubagentId, task: String },
    SubagentCompleted { parent_turn_id: TurnId, subagent_id: SubagentId, result_summary: String },
    SubagentFailed { parent_turn_id: TurnId, subagent_id: SubagentId, error: String },
    ContextCompactionStarted,
    ContextCompactionCompleted,
    TurnInterrupted { reason: String },
    ProviderUsage { prompt_tokens: u64, completion_tokens: u64 },
}

/// What a journal entry says, over plain texts.
pub enum EntryView {
    TurnStarted { user_input: Seq<char> },
    TurnCompleted,
    TurnFailed { error: Seq<char> },
    AssistantDelta { message_id: Seq<char>, delta: Seq<char> },
    AssistantCompleted { message_id: Seq<char> },
    ReasoningBlock { message_id: Seq<char>, content: Seq<char>, replay_required: bool },
    ReasoningDelta { message_id: Seq<char>, delta: Seq<char>, replay_required: bool },
    ToolCallRequested { call_id: Seq<char>, tool_name: Seq<char>, arguments: Seq<char> },
    ToolCallArgumentsDelta { call_id: Seq<char>, delta: Seq<char> },
    ToolCallApproved { call_id: Seq<char> },
    ToolCallRejected { call_id: Seq<char> },
    ToolCallCompleted { call_id: Seq<char>, tool_name: Seq<char>, success: bool, output: Option<Seq<char>>, output_preview: Option<Seq<char>> },
    ToolCallFailed { call_id: Seq<char>, error: Seq<char> },
    ApprovalPending { call_id: Seq<char>, approval_id: Seq<char>, tool_name: Seq<char>, arguments: Seq<char>, reason: Seq<char>, model: Seq<char>, workspace: Seq<char>, config_json: Seq<char> },
    ApprovalResolved { approval_id: Seq<char>, approved: bool },
    SubagentSpawned { parent_turn_id: Seq<char>, subagent_id: Seq<char>, task: Seq<char> },
    SubagentCompleted { parent_turn_id: Seq<char>, subagent_id: Seq<char>, result_summary: Seq<char> },
    SubagentFailed { parent_turn_id: Seq<char>, subagent_id: Seq<char>, error: Seq<char> },
    ContextCompactionStarted,
    ContextCompactionCompleted,
    TurnInterrupted { reason: Seq<char> },
    ProviderUsage { prompt_tokens: u64, completion_tokens: u64 },
}

impl View for JournalEntry {
    type V = EntryView;

    open spec fn view(&self) -> EntryView {
        match *self {
            JournalEntry::TurnStarted { user_input } => EntryView::TurnStarted { user_input: user_input@ },
            JournalEntry::TurnCompleted => EntryView::TurnCompleted,
            JournalEntry::TurnFailed { error } => EntryView::TurnFailed { error: error@ },
            JournalEntry::AssistantDelta { message_id, delta } => EntryView::AssistantDelta { message_id: message_id@, delta: delta@ },
            JournalEntry::AssistantCompleted { message_id } => EntryView::AssistantCompleted { message_id: message_id@ },
            JournalEntry::ReasoningBlock { message_id, content, replay_required } => EntryView::ReasoningBlock { message_id: message_id@, content: content@, replay_required },
            JournalEntry::ReasoningDelta { message_id, delta, replay_required } => EntryView::ReasoningDelta { message_id: message_id@, delta: delta@, replay_required },
            JournalEntry::ToolCallRequested { call_id, tool_name, arguments } => EntryView::ToolCallRequested { call_id: call_id@, tool_name: tool_name@, arguments: json::json_text(arguments) },
            JournalEntry::ToolCallArgumentsDelta { call_id, delta } => EntryView::ToolCallArgumentsDelta { call_id: call_id@, delta: delta@ },
            JournalEntry::ToolCallApproved { call_id } => EntryView::ToolCallApproved { call_id: call_id@ },
            JournalEntry::ToolCallRejected { call_id } => EntryView::ToolCallRejected { call_id: call_id@ },
            JournalEntry::ToolCallCompleted { call_id, tool_name, success, output, output_preview } => EntryView::ToolCallCompleted { call_id: call_id@, tool_name: tool_name@, success, output: text::opt_text(output), output_preview: text::opt_text(output_preview) },
            JournalEntry::ToolCallFailed { call_id, error } => EntryView::ToolCallFailed { call_id: call_id@, error: error@ },
            JournalEntry::ApprovalPending { call_id, approval_id, tool_name, arguments, reason, model, workspace, config_json } => EntryView::ApprovalPending { call_id: call_id@, approval_id: approval_id@, tool_name: tool_name@, arguments: json::json_text(arguments), reason: reason@, model: model@, workspace: workspace@, config_json: config_json@ },
            JournalEntry::ApprovalResolved { approval_id, approved } => EntryView::ApprovalResolved { approval_id: approval_id@, approved },
            JournalEntry::SubagentSpawned { parent_turn_id, subagent_id, task } => EntryView::SubagentSpawned { parent_turn_id: parent_turn_id@, subagent_id: subagent_id@, task: task@ },
            JournalEntry::SubagentCompleted { parent_turn_id, subagent_id, result_summary } => EntryView::SubagentCompleted { parent_turn_id: parent_turn_id@, subagent_id: subagent_id@, result_summary: result_summary@ },
            JournalEntry::SubagentFailed { parent_turn_id, subagent_id, error } => EntryView::SubagentFailed { parent_turn_id: parent_turn_id@, subagent_id: subagent_id@, error: error@ },
            JournalEntry::ContextCompactionStarted => EntryView::ContextCompactionStarted,
            JournalEntry::ContextCompactionCompleted => EntryView::ContextCompactionCompleted,
            JournalEntry::TurnInterrupted { reason } => EntryView::TurnInterrupted { reason: reason@ },
            JournalEntry::ProviderUsage { prompt_tokens, completion_tokens } => EntryView::ProviderUsage { prompt_tokens, completion_tokens },
        }
    }
}

impl Clone for JournalEntry {
    fn clone(&self) -> (r: Self)
        ensures
            r@ == self@,
    {
        match self {
            JournalEntry::TurnStarted { user_input } => JournalEntry::TurnStarted { user_input: user_input.clone() },
            JournalEntry::TurnCompleted => JournalEntry::TurnCompleted,
            JournalEntry::TurnFailed { error } => JournalEntry::TurnFailed { error: error.clone() },
            JournalEntry::AssistantDelta { message_id, delta } => JournalEntry::AssistantDelta { message_id: message_id.clone(), delta: delta.clone() },
            JournalEntry::AssistantCompleted { message_id } => JournalEntry::AssistantCompleted { message_id: message_id.clone() },
            JournalEntry::ReasoningBlock { message_id, content, replay_required } => JournalEntry::ReasoningBlock { message_id: message_id.clone(), content: content.clone(), replay_required: *replay_required },
            JournalEntry::ReasoningDelta { message_id, delta, replay_required } => JournalEntry::ReasoningDelta { message_id: message_id.clone(), delta: delta.clone(), replay_required: *replay_required },
            JournalEntry::ToolCallRequested { call_id, tool_name, arguments } => JournalEntry::ToolCallRequested { call_id: call_id.clone(), tool_name: tool_name.clone(), arguments: arguments.clone() },
            JournalEntry::ToolCallArgumentsDelta { call_id, delta } => JournalEntry::ToolCallArgumentsDelta { call_id: call_id.clone(), delta: delta.clone() },
            JournalEntry::ToolCallApproved { call_id } => JournalEntry::ToolCallApproved { call_id: call_id.clone() },
            JournalEntry::ToolCallRejected { call_id } => JournalEntry::ToolCallRejected { call_id: call_id.clone() },
            JournalEntry::ToolCallCompleted { call_id, tool_name, success, output, output_preview } => JournalEntry::ToolCallCompleted { call_id: call_id.clone(), tool_name: tool_name.clone(), success: *success, output: text::clone_opt(output), output_preview: text::clone_opt(output_preview) },
            JournalEntry::ToolCallFailed { call_id, error } => JournalEntry::ToolCallFailed { call_id: call_id.clone(), error: error.clone() },
            JournalEntry::ApprovalPending { call_id, approval_id, tool_name, arguments, reason, model, workspace, config_json } => JournalEntry::ApprovalPending { call_id: call_id.clone(), approval_id: approval_id.clone(), tool_name: tool_name.clone(), arguments: arguments.clone(), reason: reason.clone(), model: model.clone(), workspace: workspace.clone(), config_json: config_json.clone() },
            JournalEntry::ApprovalResolved { approval_id, approved } => JournalEntry::ApprovalResolved { approval_id: approval_id.clone(), approved: *approved },
            JournalEntry::SubagentSpawned { parent_turn_id, subagent_id, task } => JournalEntry::SubagentSpawned { parent_turn_id: parent_turn_id.clone(), subagent_id: subagent_id.clone(), task: task.clone() },
            JournalEntry::SubagentCompleted { parent_turn_id, subagent_id, result_summary } => JournalEntry::SubagentCompleted { parent_turn_id: parent_turn_id.clone(), subagent_id: subagent_id.clone(), result_summary: result_summary.clone() },
            JournalEntry::SubagentFailed { parent_turn_id, subagent_id, error } => JournalEntry::SubagentFailed { parent_turn_id: parent_turn_id.clone(), subagent_id: subagent_id.clone(), error: error.clone() },
            JournalEntry::ContextCompactionStarted => JournalEntry::ContextCompactionStarted,
            JournalEntry::ContextCompactionCompleted => JournalEntry::ContextCompactionCompleted,
            JournalEntry::TurnInterrupted { reason } => JournalEntry::TurnInterrupted { reason: reason.clone() },
            JournalEntry::ProviderUsage { prompt_tokens, completion_tokens } => JournalEntry::ProviderUsage { prompt_tokens: *prompt_tokens, completion_tokens: *completion_tokens },
        }
    }
}

/// An entry with its number, thread, turn and time.
#[derive(Debug)]
pub struct JournalRecord {
    pub seq: i64,
    pub thread_id: ThreadId,
    pub turn_id: TurnId,
    pub entry: JournalEntry,
    pub created_at: i64,
}

/// A journal record, over plain texts.
pub struct RecordView {
    pub seq: i64,
    pub thread_id: Seq<char>,
    pub turn_id: Seq<char>,
    pub entry: EntryView,
    pub created_at: i64,
}

impl View for JournalRecord {
    type V = RecordView;

    open spec fn view(&self) -> RecordView {
        RecordView {
            seq: self.seq,
            thread_id: self.thread_id@,
            turn_id: self.turn_id@,
            entry: self.entry@,
            created_at: self.created_at,
        }
    }
}

impl Clone for JournalRecord {
    fn clone(&self) -> (r: Self)
        ensures
            r@ == self@,
    {
        JournalRecord {
            seq: self.seq,
            thread_id: self.thread_id.clone(),
            turn_id: self.turn_id.clone(),
            entry: self.entry.clone(),
            created_at: self.created_at,
        }
    }
}

/// The frame that an entry of a turn shows to hosts. Usage records and resolved
/// approvals show none.
pub open spec fn frame_of(thread_id: Seq<char>, turn_id: Seq<char>, entry: EntryView) -> Option<FrameView> {
    match entry {
        EntryView::TurnStarted { user_input } => Some(FrameView::TurnStarted { thread_id, turn_id, user_input }),
        EntryView::TurnCompleted => Some(FrameView::TurnCompleted { turn_id }),
        EntryView::TurnFailed { error } => Some(FrameView::TurnFailed { turn_id, error }),
        EntryView::AssistantDelta { message_id, delta } => Some(FrameView::AssistantMessageDelta { turn_id, message_id, delta }),
        EntryView::AssistantCompleted { message_id } => Some(FrameView::AssistantMessageCompleted { turn_id, message_id }),
        EntryView::ReasoningBlock { message_id, replay_required, .. } => Some(FrameView::AssistantReasoningCompleted { turn_id, message_id, replay_required }),
        EntryView::ReasoningDelta { message_id, delta, replay_required } => Some(FrameView::AssistantReasoningDelta { turn_id, message_id, delta, replay_required, visibility: ReasoningVisibility::HostRenderable }),
        EntryView::ToolCallRequested { call_id, tool_name, .. } => Some(FrameView::ToolCallStarted { turn_id, call_id, tool_name }),
        EntryView::ToolCallArgumentsDelta { call_id, delta } => Some(FrameView::ToolCallArgumentsDelta { turn_id, call_id, delta }),
        EntryView::ToolCallApproved { call_id } => Some(FrameView::ToolCallApproved { turn_id, call_id }),
        EntryView::ToolCallRejected { call_id } => Some(FrameView::ToolCallRejected { turn_id, call_id }),
        EntryView::ToolCallCompleted { call_id, tool_name, success, output_preview, .. } => Some(FrameView::ToolCallCompleted { turn_id, call_id, tool_name, success, output_preview }),
        EntryView::ToolCallFailed { call_id, error } => Some(FrameView::ToolCallFailed { turn_id, call_id, error }),
        EntryView::ApprovalPending { call_id, tool_name, reason, .. } => Some(FrameView::ToolCallRequiresApproval { turn_id, call_id, tool_name, reason }),
        EntryView::ApprovalResolved { .. } => None,
        EntryView::SubagentSpawned { parent_turn_id, subagent_id, task } => Some(FrameView::SubagentSpawned { parent_turn_id, subagent_id, task }),
        EntryView::SubagentCompleted { parent_turn_id, subagent_id, result_summary } => Some(FrameView::SubagentCompleted { parent_turn_id, subagent_id, result_summary }),
        EntryView::SubagentFailed { parent_turn_id, subagent_id, error } => Some(FrameView::SubagentFailed { parent_turn_id, subagent_id, error }),
        EntryView::ContextCompactionStarted => Some(FrameView::ContextCompactionStarted { turn_id }),
        EntryView::ContextCompactionCompleted => Some(FrameView::ContextCompactionCompleted { turn_id }),
        EntryView::TurnInterrupted { .. } => Some(FrameView::TurnInterrupted { thread_id, turn_id }),
        EntryView::ProviderUsage { .. } => None,
    }
}

/// The frame that a journal record shows to hosts, if it shows one.
pub fn journal_to_event_frame(record: &JournalRecord) -> (r: Option<EventFrame>)
    ensures
        (match r {
            Some(f) => Some(f@),
            None => None,
        }) == frame_of(record.thread_id@, record.turn_id@, record.entry@),
{
    match &record.entry {
        JournalEntry::TurnStarted { user_input } => Some(EventFrame::TurnStarted { thread_id: record.thread_id.clone(), turn_id: record.turn_id.clone(), user_input: user_input.clone() }),
        JournalEntry::TurnCompleted => Some(EventFrame::TurnCompleted { turn_id: record.turn_id.clone() }),
        JournalEntry::TurnFailed { error } => Some(EventFrame::TurnFailed { turn_id: record.turn_id.clone(), error: error.clone() }),
        JournalEntry::AssistantDelta { message_id, delta } => Some(EventFrame::AssistantMessageDelta { turn_id: record.turn_id.clone(), message_id: message_id.clone(), delta: delta.clone() }),
        JournalEntry::AssistantCompleted { message_id } => Some(EventFrame::AssistantMessageCompleted { turn_id: record.turn_id.clone(), message_id: message_id.clone() }),
        JournalEntry::ReasoningBlock { message_id, replay_required, .. } => Some(EventFrame::AssistantReasoningCompleted { turn_id: record.turn_id.clone(), message_id: message_id.clone(), replay_required: *replay_required }),
        JournalEntry::ReasoningDelta { message_id, delta, replay_required } => Some(EventFrame::AssistantReasoningDelta { turn_id: record.turn_id.clone(), message_id: message_id.clone(), delta: delta.clone(), replay_required: *replay_required, visibility: ReasoningVisibility::HostRenderable }),
        JournalEntry::ToolCallRequested { call_id, tool_name, .. } => Some(EventFrame::ToolCallStarted { turn_id: record.turn_id.clone(), call_id: call_id.clone(), tool_name: tool_name.clone() }),
        JournalEntry::ToolCallArgumentsDelta { call_id, delta } => Some(EventFrame::ToolCallArgumentsDelta { turn_id: record.turn_id.clone(), call_id: call_id.clone(), delta: delta.clone() }),
        JournalEntry::ToolCallApproved { call_id } => Some(EventFrame::ToolCallApproved { turn_id: record.turn_id.clone(), call_id: call_id.clone() }),
        JournalEntry::ToolCallRejected { call_id } => Some(EventFrame::ToolCallRejected { turn_id: record.turn_id.clone(), call_id: call_id.clone() }),
        JournalEntry::ToolCallCompleted { call_id, tool_name, success, output_preview, .. } => Some(EventFrame::ToolCallCompleted { turn_id: record.turn_id.clone(), call_id: call_id.clone(), tool_name: tool_name.clone(), success: *success, output_preview: text::clone_opt(output_preview) }),
        JournalEntry::ToolCallFailed { call_id, error } => Some(EventFrame::ToolCallFailed { turn_id: record.turn_id.clone(), call_id: call_id.clone(), error: error.clone() }),
        JournalEntry::ApprovalPending { call_id, tool_name, reason, .. } => Some(EventFrame::ToolCallRequiresApproval { turn_id: record.turn_id.clone(), call_id: call_id.clone(), tool_name: tool_name.clone(), reason: reason.clone() }),
        JournalEntry::ApprovalResolved { .. } => None,
        JournalEntry::SubagentSpawned { parent_turn_id, subagent_id, task } => Some(EventFrame::SubagentSpawned { parent_turn_id: parent_turn_id.clone(), subagent_id: subagent_id.clone(), task: task.clone() }),
        JournalEntry::SubagentCompleted { parent_turn_id, subagent_id, result_summary } => Some(EventFrame::SubagentCompleted { parent_turn_id: parent_turn_id.clone(), subagent_id: subagent_id.clone(), result_summary: result_summary.clone() }),
        JournalEntry::SubagentFailed { parent_turn_id, subagent_id, error } => Some(EventFrame::SubagentFailed { parent_turn_id: parent_turn_id.clone(), subagent_id: subagent_id.clone(), error: error.clone() }),
        JournalEntry::ContextCompactionStarted => Some(EventFrame::ContextCompactionStarted { turn_id: record.turn_id.clone() }),
        JournalEntry::ContextCompactionCompleted => Some(EventFrame::ContextCompactionCompleted { turn_id: record.turn_id.clone() }),
        JournalEntry::TurnInterrupted { .. } => Some(EventFrame::TurnInterrupted { thread_id: record.thread_id.clone(), turn_id: record.turn_id.clone() }),
        JournalEntry::ProviderUsage { .. } => None,
    }
}

/// The turn that a frame belongs to and the entry that the journal keeps of it.
/// Frames that the journal does not keep have none.
pub open spec fn entry_of(frame: FrameView) -> Option<(Seq<char>, EntryView)> {
    match frame {
        FrameView::TurnStarted { turn_id, user_input, .. } => Some((turn_id, EntryView::TurnStarted { user_input })),
        FrameView::AssistantMessageDelta { turn_id, message_id, delta } => Some((turn_id, EntryView::AssistantDelta { message_id, delta })),
        FrameView::AssistantMessageCompleted { turn_id, message_id } => Some((turn_id, EntryView::AssistantCompleted { message_id })),
        FrameView::AssistantReasoningDelta { turn_id, message_id, delta, replay_required, .. } => Some((turn_id, EntryView::ReasoningDelta { message_id, delta, replay_required })),
        FrameView::AssistantReasoningCompleted { turn_id, message_id, replay_required } => Some((turn_id, EntryView::ReasoningBlock { message_id, content: Seq::empty(), replay_required })),
        FrameView::ToolCallStarted { turn_id, call_id, tool_name } => Some((turn_id, EntryView::ToolCallRequested { call_id, tool_name, arguments: "null"@ })),
        FrameView::ToolCallArgumentsDelta { turn_id, call_id, delta } => Some((turn_id, EntryView::ToolCallArgumentsDelta { call_id, delta })),
        FrameView::ToolCallApproved { turn_id, call_id } => Some((turn_id, EntryView::ToolCallApproved { call_id })),
        FrameView::ToolCallRejected { turn_id, call_id } => Some((turn_id, EntryView::ToolCallRejected { call_id })),
        FrameView::ToolCallCompleted { turn_id, call_id, success, output_preview, .. } => Some((turn_id, EntryView::ToolCallCompleted { call_id, tool_name: Seq::empty(), success, output: output_preview, output_preview })),
        FrameView::ToolCallFailed { turn_id, call_id, error } => Some((turn_id, EntryView::ToolCallFailed { call_id, error })),
        FrameView::ContextCompactionStarted { turn_id } => Some((turn_id, EntryView::ContextCompactionStarted)),
        FrameView::ContextCompactionCompleted { turn_id } => Some((turn_id, EntryView::ContextCompactionCompleted)),
        FrameView::SubagentSpawned { parent_turn_id, subagent_id, task } => Some((parent_turn_id, EntryView::SubagentSpawned { parent_turn_id, subagent_id, task })),
        FrameView::SubagentCompleted { parent_turn_id, subagent_id, result_summary } => Some((parent_turn_id, EntryView::SubagentCompleted { parent_turn_id, subagent_id, result_summary })),
        FrameView::SubagentFailed { parent_turn_id, subagent_id, error } => Some((parent_turn_id, EntryView::SubagentFailed { parent_turn_id, subagent_id, error })),
        FrameView::TurnCompleted { turn_id } => Some((turn_id, EntryView::TurnCompleted)),
        FrameView::TurnFailed { turn_id, error } => Some((turn_id, EntryView::TurnFailed { error })),
        FrameView::ToolCallRequiresApproval { .. }
        | FrameView::ThreadCreated { .. }
        | FrameView::ThreadUpdated { .. }
        | FrameView::ThreadArchived { .. }
        | FrameView::TurnSteered { .. }
        | FrameView::TurnInterrupted { .. }
        | FrameView::RuntimeWarning { .. } => None,
    }
}

/// The view of an entry with its turn.
pub open spec fn kept(r: Option<(TurnId, JournalEntry)>) -> Option<(Seq<char>, EntryView)> {
    match r {
        Some(p) => Some((p.0@, p.1@)),
        None => None,
    }
}

/// The entry that the journal keeps of a frame, with the turn it goes to.
pub fn event_frame_to_journal_entry(event: &EventFrame) -> (r: Option<(TurnId, JournalEntry)>)
    ensures
        kept(r) == entry_of(event@),
{
    match event {
        EventFrame::TurnStarted { turn_id, user_input, .. } => Some((turn_id.clone(), JournalEntry::TurnStarted { user_input: user_input.clone() })),
        EventFrame::AssistantMessageDelta { turn_id, message_id, delta } => Some((turn_id.clone(), JournalEntry::AssistantDelta { message_id: message_id.clone(), delta: delta.clone() })),
        EventFrame::AssistantMessageCompleted { turn_id, message_id } => Some((turn_id.clone(), JournalEntry::AssistantCompleted { message_id: message_id.clone() })),
        EventFrame::AssistantReasoningDelta { turn_id, message_id, delta, replay_required, .. } => Some((turn_id.clone(), JournalEntry::ReasoningDelta { message_id: message_id.clone(), delta: delta.clone(), replay_required: *replay_required })),
        EventFrame::AssistantReasoningCompleted { turn_id, message_id, replay_required } => Some((turn_id.clone(), JournalEntry::ReasoningBlock { message_id: message_id.clone(), content: String::new(), replay_required: *replay_required })),
        EventFrame::ToolCallStarted { turn_id, call_id, tool_name } => Some((turn_id.clone(), JournalEntry::ToolCallRequested { call_id: call_id.clone(), tool_name: tool_name.clone(), arguments: json::null() })),
        EventFrame::ToolCallArgumentsDelta { turn_id, call_id, delta } => Some((turn_id.clone(), JournalEntry::ToolCallArgumentsDelta { call_id: call_id.clone(), delta: delta.clone() })),
        EventFrame::ToolCallApproved { turn_id, call_id } => Some((turn_id.clone(), JournalEntry::ToolCallApproved { call_id: call_id.clone() })),
        EventFrame::ToolCallRejected { turn_id, call_id } => Some((turn_id.clone(), JournalEntry::ToolCallRejected { call_id: call_id.clone() })),
        EventFrame::ToolCallCompleted { turn_id, call_id, success, output_preview, .. } => Some((turn_id.clone(), JournalEntry::ToolCallCompleted { call_id: call_id.clone(), tool_name: String::new(), success: *success, output: text::clone_opt(output_preview), output_preview: text::clone_opt(output_preview) })),
        EventFrame::ToolCallFailed { turn_id, call_id, error } => Some((turn_id.clone(), JournalEntry::ToolCallFailed { call_id: call_id.clone(), error: error.clone() })),
        EventFrame::ContextCompactionStarted { turn_id } => Some((turn_id.clone(), JournalEntry::ContextCompactionStarted)),
        EventFrame::ContextCompactionCompleted { turn_id } => Some((turn_id.clone(), JournalEntry::ContextCompactionCompleted)),
        EventFrame::SubagentSpawned { parent_turn_id, subagent_id, task } => Some((parent_turn_id.clone(), JournalEntry::SubagentSpawned { parent_turn_id: parent_turn_id.clone(), subagent_id: subagent_id.clone(), task: task.clone() })),
        EventFrame::SubagentCompleted { parent_turn_id, subagent_id, result_summary } => Some((parent_turn_id.clone(), JournalEntry::SubagentCompleted { parent_turn_id: parent_turn_id.clone(), subagent_id: subagent_id.clone(), result_summary: result_summary.clone() })),
        EventFrame::SubagentFailed { parent_turn_id, subagent_id, error } => Some((parent_turn_id.clone(), JournalEntry::SubagentFailed { parent_turn_id: parent_turn_id.clone(), subagent_id: subagent_id.clone(), error: error.clone() })),
        EventFrame::TurnCompleted { turn_id } => Some((turn_id.clone(), JournalEntry::TurnCompleted)),
        EventFrame::TurnFailed { turn_id, error } => Some((turn_id.clone(), JournalEntry::TurnFailed { error: error.clone() })),
        EventFrame::ToolCallRequiresApproval { .. }
        | EventFrame::ThreadCreated { .. }
        | EventFrame::ThreadUpdated { .. }
        | EventFrame::ThreadArchived { .. }
        | EventFrame::TurnSteered { .. }
        | EventFrame::TurnInterrupted { .. }
        | EventFrame::RuntimeWarning { .. } => None,
    }
}

/// What a host sees of a frame once it has gone through the journal of a thread:
/// the thread is that of the journal, reasoning is renderable, and the name of a
/// completed tool is not kept.
pub open spec fn replayed(thread_id: Seq<char>, frame: FrameView) -> FrameView {
    match frame {
        FrameView::TurnStarted { turn_id, user_input, .. } => FrameView::TurnStarted {
            thread_id,
            turn_id,
            user_input,
        },
        FrameView::AssistantReasoningDelta { turn_id, message_id, delta, replay_required, .. } =>
            FrameView::AssistantReasoningDelta {
            turn_id,
            message_id,
            delta,
            replay_required,
            visibility: ReasoningVisibility::HostRenderable,
        },
        FrameView::ToolCallCompleted { turn_id, call_id, success, output_preview, .. } =>
            FrameView::ToolCallCompleted {
            turn_id,
            call_id,
            tool_name: Seq::empty(),
            success,
            output_preview,
        },
        _ => frame,
    }
}

/// What the journal keeps of a frame projects back to that frame, but for the
/// thread, the visibility of reasoning and the name of a completed tool.
pub proof fn law_journal_round_trip(thread_id: Seq<char>, frame: FrameView)
    ensures
        entry_of(frame) matches Some(kept) ==> frame_of(thread_id, kept.0, kept.1) == Some(
            replayed(thread_id, frame),
        ),
{
}

/// Projecting twice changes nothing more: a frame out of the journal that is
/// journalled again comes out the same.
pub proof fn law_replay_is_stable(thread_id: Seq<char>, frame: FrameView)
    ensures
        replayed(thread_id, replayed(thread_id, frame)) == replayed(thread_id, frame),
        entry_of(frame) is Some <==> entry_of(replayed(thread_id, frame)) is Some,
{
}

/// Errors of a journal.
#[derive(Debug)]
pub enum JournalError {
    Storage(String),
    Serialization(String),
}

impl JournalError {
    pub open spec fn message(&self) -> Seq<char> {
        match *self {
            JournalError::Storage(m) => "journal storage error: "@ + m@,
            JournalError::Serialization(m) => "journal serialization error: "@ + m@,
        }
    }

    pub fn to_string(&self) -> (r: String)
        ensures
            r@ == self.message(),
    {
        match self {
            JournalError::Storage(m) => text::cat("journal storage error: ", m.as_str()),
            JournalError::Serialization(m) => text::cat(
                "journal serialization error: ",
                m.as_str(),
            ),
        }
    }
}

/// The records of a list, over plain texts.
pub open spec fn records(v: Seq<JournalRecord>) -> Seq<RecordView> {
    v.map_values(|x: JournalRecord| x@)
}

/// The records that come after a number.
pub open spec fn after(log: Seq<RecordView>, since: i64) -> Seq<RecordView> {
    log.filter(|r: RecordView| r.seq > since)
}

/// Records numbered from one without gaps.
pub open spec fn numbered(log: Seq<RecordView>) -> bool {
    forall|i: int| 0 <= i < log.len() ==> (#[trigger] log[i]).seq == i + 1
}

/// The record that an append adds to a log.
pub open spec fn next_record(
    log: Seq<RecordView>,
    thread_id: Seq<char>,
    turn_id: Seq<char>,
    entry: EntryView,
    now: i64,
) -> RecordView {
    RecordView { seq: (log.len() + 1) as i64, thread_id, turn_id, entry, created_at: now }
}

/// How many records of a gapless log come up to a number.
pub open spec fn count_up_to(log: Seq<RecordView>, since: i64) -> int {
    if since <= 0 {
        0
    } else if since <= log.len() {
        since as int
    } else {
        log.len() as int
    }
}

/// Of a gapless log, the records after a number are its tail: all of them after zero or
/// less, none after the last.
pub proof fn law_replay_is_a_tail(log: Seq<RecordView>, since: i64)
    requires
        numbered(log),
    ensures
        after(log, since) == log.skip(count_up_to(log, since)),
    decreases log.len(),
{
    reveal(Seq::filter);
    let n = count_up_to(log, since);
    if log.len() == 0 {
        assert(log.skip(n) =~= Seq::empty());
    } else if log.len() > since {
        law_replay_is_a_tail(log.drop_last(), since);
        assert(log.last().seq > since);
        assert(log.skip(n) =~= log.drop_last().skip(n).push(log.last()));
    } else {
        assert forall|i: int| 0 <= i < log.len() implies !((#[trigger] log[i]).seq > since) by {}
        lemma_filter_none(log, since);
        assert(log.skip(n) =~= Seq::empty());
    }
}

proof fn lemma_filter_none(log: Seq<RecordView>, since: i64)
    requires
        forall|i: int| 0 <= i < log.len() ==> (#[trigger] log[i]).seq <= since,
    ensures
        after(log, since) == Seq::<RecordView>::empty(),
    decreases log.len(),
{
    reveal(Seq::filter);
    if log.len() > 0 {
        assert(log[log.len() - 1].seq <= since);
        lemma_filter_none(log.drop_last(), since);
    }
}

/// A replay from the number of the last record seen, after one more append, is that
/// one record: a host that replays from there misses nothing and sees nothing twice.
pub proof fn law_append_then_replay(
    log: Seq<RecordView>,
    thread_id: Seq<char>,
    turn_id: Seq<char>,
    entry: EntryView,
    now: i64,
)
    requires
        numbered(log),
        log.len() < i64::MAX,
    ensures
        numbered(log.push(next_record(log, thread_id, turn_id, entry, now))),
        after(log.push(next_record(log, thread_id, turn_id, entry, now)), log.len() as i64) == seq![
            next_record(log, thread_id, turn_id, entry, now),
        ],
{
    let rec = next_record(log, thread_id, turn_id, entry, now);
    law_replay_is_a_tail(log.push(rec), log.len() as i64);
    assert(log.push(rec).skip(log.len() as int) =~= seq![rec]);
}

/// A journal held in memory: for each thread the list of its records.
#[derive(Debug)]
pub struct InMemoryJournal {
    threads: Table<Vec<JournalRecord>>,
}

impl InMemoryJournal {
    /// The records of a thread, oldest first.
    pub closed spec fn log(&self, thread_id: Seq<char>) -> Seq<RecordView> {
        if self.threads@.dom().contains(thread_id) {
            records(self.threads@[thread_id]@)
        } else {
            Seq::empty()
        }
    }

    /// The records of every thread are numbered from one without gaps.
    pub closed spec fn wf(&self) -> bool {
        &&& self.threads.wf()
        &&& forall|t: Seq<char>| numbered(#[trigger] self.log(t))
    }

    /// The numbers of the records of a thread run from one without gaps.
    pub proof fn law_numbers_have_no_gap(&self, thread_id: Seq<char>)
        requires
            self.wf(),
        ensures
            numbered(self.log(thread_id)),
    {
    }

    /// The journal without records.
    pub fn new() -> (r: Self)
        ensures
            r.wf(),
            forall|t: Seq<char>| #[trigger] r.log(t) == Seq::<RecordView>::empty(),
    {
        InMemoryJournal { threads: Table::new() }
    }

    /// Adds an entry to a thread under the next number, with the time `now`.
    pub fn append(
        &mut self,
        thread_id: &ThreadId,
        turn_id: &TurnId,
        entry: JournalEntry,
        now: i64,
    ) -> (r: Result<JournalRecord, JournalError>)
        requires
            old(self).wf(),
            old(self).log(thread_id@).len() < i64::MAX,
        ensures
            final(self).wf(),
            r matches Ok(rec) && rec@ == next_record(
                old(self).log(thread_id@),
                thread_id@,
                turn_id@,
                entry@,
                now,
            ),
            final(self).log(thread_id@) == old(self).log(thread_id@).push(r->Ok_0@),
            forall|t: Seq<char>| t != thread_id@ ==> #[trigger] final(self).log(t) == old(self).log(t),
    {
        let ghost before = *self;
        let ghost log = self.log(thread_id@);
        let mut list: Vec<JournalRecord> = match self.threads.remove(thread_id.as_str()) {
            Some(v) => v,
            None => Vec::new(),
        };
        assert(records(list@) =~= log);
        let seq: i64 = if list.len() == 0 {
            1
        } else {
            let last = &list[list.len() - 1];
            assert(last@ == log[log.len() - 1]);
            last.seq + 1
        };
        let record = JournalRecord {
            seq,
            thread_id: thread_id.clone(),
            turn_id: turn_id.clone(),
            entry,
            created_at: now,
        };
        list.push(record.clone());
        assert(records(list@) =~= log.push(record@));
        self.threads.insert(thread_id.to_string(), list);
        assert(self.log(thread_id@) == log.push(record@));
        assert forall|t: Seq<char>| numbered(#[trigger] self.log(t)) by {
            if t != thread_id@ {
                assert(self.log(t) == before.log(t));
            } else {
                assert(numbered(log));
            }
        }
        Ok(record)
    }

    /// The records of a thread that come after a number, oldest first.
    pub fn replay(&self, thread_id: &ThreadId, since_seq: i64) -> (r: Result<
        Vec<JournalRecord>,
        JournalError,
    >)
        requires
            self.wf(),
        ensures
            r matches Ok(v) && records(v@) == after(self.log(thread_id@), since_seq),
    {
        let mut out: Vec<JournalRecord> = Vec::new();
        match self.threads.get(thread_id.as_str()) {
            Some(list) => {
                let ghost log = self.log(thread_id@);
                let mut i: usize = 0;
                proof {
                    reveal(Seq::filter);
                    assert(records(out@) =~= after(log.take(0), since_seq));
                }
                while i < list.len()
                    invariant
                        i <= list.len(),
                        log == records(list@),
                        records(out@) == after(log.take(i as int), since_seq),
                    decreases list.len() - i,
                {
                    proof {
                        reveal(Seq::filter);
                        assert(log.take(i + 1).drop_last() =~= log.take(i as int));
                        assert(log.take(i + 1).last() == list@[i as int]@);
                    }
                    if list[i].seq > since_seq {
                        let ghost prior = out@;
                        out.push(list[i].clone());
                        assert(records(out@) =~= records(prior).push(list@[i as int]@));
                    }
                    i = i + 1;
                }
                assert(log.take(i as int) =~= log);
            },
            None => {
                proof {
                    reveal(Seq::filter);
                }
                assert(records(out@) =~= after(self.log(thread_id@), since_seq));
            },
        }
        Ok(out)
    }
}

impl Default for InMemoryJournal {
    fn default() -> (r: Self)
        ensures
            r.wf(),
            forall|t: Seq<char>| #[trigger] r.log(t) == Seq::<RecordView>::empty(),
    {
        InMemoryJournal::new()
    }
}

/// The journal keeps every frame that hosts are to see again, and no other: seven kinds
/// are not kept. What is kept of a frame comes back as that very frame, where its thread is
/// that of the journal, its reasoning is renderable and no tool is named as completed.
pub proof fn law_kept_frames_come_back(thread_id: Seq<char>, frame: FrameView)
    ensures
        entry_of(frame) is None <==> (frame is ToolCallRequiresApproval || frame is ThreadCreated
            || frame is ThreadUpdated || frame is ThreadArchived || frame is TurnSteered
            || frame is TurnInterrupted || frame is RuntimeWarning),
        entry_of(frame) matches Some(kept) ==> (!(frame is TurnStarted)
            && !(frame is AssistantReasoningDelta) && !(frame is ToolCallCompleted))
            ==> frame_of(thread_id, kept.0, kept.1) == Some(frame),
        frame matches FrameView::TurnStarted { thread_id: t, .. } ==> t == thread_id ==> (
        entry_of(frame) matches Some(kept) && frame_of(thread_id, kept.0, kept.1) == Some(frame)),
        frame matches FrameView::AssistantReasoningDelta { visibility, .. } ==> visibility
            == ReasoningVisibility::HostRenderable ==> (entry_of(frame) matches Some(kept)
            && frame_of(thread_id, kept.0, kept.1) == Some(frame)),
        frame matches FrameView::ToolCallCompleted { tool_name, .. } ==> tool_name.len() == 0
            ==> (entry_of(frame) matches Some(kept) && frame_of(thread_id, kept.0, kept.1) == Some(
            frame,
        )),
{
    if frame is ToolCallCompleted && frame->ToolCallCompleted_tool_name.len() == 0 {
        assert(frame->ToolCallCompleted_tool_name =~= Seq::<char>::empty());
    }
}

/// What a tool gave back is what the journal keeps as its output; what is journalled of a
/// call that only started are no arguments.
pub proof fn law_output_is_journalled(frame: FrameView)
    ensures
        frame matches FrameView::ToolCallCompleted { turn_id, call_id, success, output_preview, .. }
            ==> entry_of(frame) matches Some((turn, EntryView::ToolCallCompleted {
            call_id: c,
            success: s,
            output,
            output_preview: p,
            ..
        })) && turn == turn_id && c == call_id && s == success && output == output_preview && p
            == output_preview,
        frame matches FrameView::ToolCallStarted { turn_id, call_id, tool_name } ==> entry_of(
            frame,
        ) matches Some((turn, EntryView::ToolCallRequested { call_id: c, tool_name: n, arguments }))
            && turn == turn_id && c == call_id && n == tool_name && arguments == "null"@,
        frame matches FrameView::AssistantReasoningCompleted { turn_id, message_id, replay_required }
            ==> entry_of(frame) matches Some((turn, EntryView::ReasoningBlock {
            message_id: m,
            content,
            replay_required: q,
        })) && turn == turn_id && m == message_id && content.len() == 0 && q == replay_required,
{
}

/// The frames of a journal entry name the turn, the call, the tool and the words of the
/// entry. An approval that is pending shows as one that is required, an interrupted turn as
/// interrupted; resolved approvals and usage show nothing, and nothing else is hidden.
pub proof fn law_entries_are_shown(thread_id: Seq<char>, turn_id: Seq<char>, entry: EntryView)
    ensures
        frame_of(thread_id, turn_id, entry) is None <==> (entry is ApprovalResolved
            || entry is ProviderUsage),
        entry matches EntryView::ApprovalPending { call_id, tool_name, reason, .. } ==> frame_of(
            thread_id,
            turn_id,
            entry,
        ) matches Some(FrameView::ToolCallRequiresApproval {
            turn_id: t,
            call_id: c,
            tool_name: n,
            reason: r,
        }) && t == turn_id && c == call_id && n == tool_name && r == reason,
        entry is TurnInterrupted ==> (frame_of(thread_id, turn_id, entry) matches Some(
            FrameView::TurnInterrupted { thread_id: h, turn_id: t },
        ) && h == thread_id && t == turn_id),
        entry matches EntryView::ToolCallCompleted {
            call_id,
            tool_name,
            success,
            output_preview,
            ..
        } ==> frame_of(thread_id, turn_id, entry) matches Some(FrameView::ToolCallCompleted {
            turn_id: t,
            call_id: c,
            tool_name: n,
            success: s,
            output_preview: p,
        }) && t == turn_id && c == call_id && n == tool_name && s == success && p == output_preview,
        entry matches EntryView::ToolCallRequested { call_id, tool_name, .. } ==> frame_of(
            thread_id,
            turn_id,
            entry,
        ) matches Some(FrameView::ToolCallStarted { turn_id: t, call_id: c, tool_name: n }) && t
            == turn_id && c == call_id && n == tool_name,
        entry matches EntryView::ReasoningBlock { message_id, replay_required, .. } ==> frame_of(
            thread_id,
            turn_id,
            entry,
        ) matches Some(FrameView::AssistantReasoningCompleted {
            turn_id: t,
            message_id: m,
            replay_required: q,
        }) && t == turn_id && m == message_id && q == replay_required,
{
}

/// An append keeps what it was given, under the number after the last one.
pub proof fn law_append_keeps_the_entry(
    log: Seq<RecordView>,
    thread_id: Seq<char>,
    turn_id: Seq<char>,
    entry: EntryView,
    now: i64,
)
    requires
        log.len() < i64::MAX,
    ensures
        next_record(log, thread_id, turn_id, entry, now).seq == log.len() + 1,
        next_record(log, thread_id, turn_id, entry, now).thread_id == thread_id,
        next_record(log, thread_id, turn_id, entry, now).turn_id == turn_id,
        next_record(log, thread_id, turn_id, entry, now).entry == entry,
        next_record(log, thread_id, turn_id, entry, now).created_at == now,
{
}

/// A replay holds each record with a greater number, in the order of the log, and none
/// besides: one more record at the end of the log is one more at the end of the replay, or
/// none.
pub proof fn law_replay_is_by_number(log: Seq<RecordView>, r: RecordView, since: i64)
    ensures
        after(log.push(r), since) == (if r.seq > since {
            after(log, since).push(r)
        } else {
            after(log, since)
        }),
        after(Seq::<RecordView>::empty(), since).len() == 0,
{
    reveal(Seq::filter);
    assert(log.push(r).drop_last() =~= log);
}

/// The messages of journal errors hold what went wrong.
pub proof fn law_journal_errors_say_why(m: String)
    ensures
        JournalError::Storage(m).message() == "journal storage error: "@ + m@,
        JournalError::Serialization(m).message() == "journal serialization error: "@ + m@,
{
}

/// What is seen of a journal entry is all that it holds.
pub proof fn law_journal_entry_is_seen_whole(j: JournalEntry)
    ensures
        j matches JournalEntry::TurnStarted { user_input } ==> j@ == (EntryView::TurnStarted { user_input: user_input@ }),
        j is TurnCompleted ==> j@ is TurnCompleted,
        j matches JournalEntry::TurnFailed { error } ==> j@ == (EntryView::TurnFailed { error: error@ }),
        j matches JournalEntry::AssistantDelta { message_id, delta } ==> j@ == (EntryView::AssistantDelta { message_id: message_id@, delta: delta@ }),
        j matches JournalEntry::AssistantCompleted { message_id } ==> j@ == (EntryView::AssistantCompleted { message_id: message_id@ }),
        j matches JournalEntry::ReasoningBlock { message_id, content, replay_required } ==> j@ == (EntryView::ReasoningBlock { message_id: message_id@, content: content@, replay_required }),
        j matches JournalEntry::ReasoningDelta { message_id, delta, replay_required } ==> j@ == (EntryView::ReasoningDelta { message_id: message_id@, delta: delta@, replay_required }),
        j matches JournalEntry::ToolCallRequested { call_id, tool_name, arguments } ==> j@ == (EntryView::ToolCallRequested { call_id: call_id@, tool_name: tool_name@, arguments: json::json_text(arguments) }),
        j matches JournalEntry::ToolCallArgumentsDelta { call_id, delta } ==> j@ == (EntryView::ToolCallArgumentsDelta { call_id: call_id@, delta: delta@ }),
        j matches JournalEntry::ToolCallApproved { call_id } ==> j@ == (EntryView::ToolCallApproved { call_id: call_id@ }),
        j matches JournalEntry::ToolCallRejected { call_id } ==> j@ == (EntryView::ToolCallRejected { call_id: call_id@ }),
        j matches JournalEntry::ToolCallCompleted { call_id, tool_name, success, output, output_preview } ==> j@ == (EntryView::ToolCallCompleted { call_id: call_id@, tool_name: tool_name@, success, output: text::opt_text(output), output_preview: text::opt_text(output_preview) }),
        j matches JournalEntry::ToolCallFailed { call_id, error } ==> j@ == (EntryView::ToolCallFailed { call_id: call_id@, error: error@ }),
        j matches JournalEntry::ApprovalPending { call_id, approval_id, tool_name, arguments, reason, model, workspace, config_json } ==> j@ == (EntryView::ApprovalPending { call_id: call_id@, approval_id: approval_id@, tool_name: tool_name@, arguments: json::json_text(arguments), reason: reason@, model: model@, workspace: workspace@, config_json: config_json@ }),
        j matches JournalEntry::ApprovalResolved { approval_id, approved } ==> j@ == (EntryView::ApprovalResolved { approval_id: approval_id@, approved }),
        j matches JournalEntry::SubagentSpawned { parent_turn_id, subagent_id, task } ==> j@ == (EntryView::SubagentSpawned { parent_turn_id: parent_turn_id@, subagent_id: subagent_id@, task: task@ }),
        j matches JournalEntry::SubagentCompleted { parent_turn_id, subagent_id, result_summary } ==> j@ == (EntryView::SubagentCompleted { parent_turn_id: parent_turn_id@, subagent_id: subagent_id@, result_summary: result_summary@ }),
        j matches JournalEntry::SubagentFailed { parent_turn_id, subagent_id, error } ==> j@ == (EntryView::SubagentFailed { parent_turn_id: parent_turn_id@, subagent_id: subagent_id@, error: error@ }),
        j is ContextCompactionStarted ==> j@ is ContextCompactionStarted,
        j is ContextCompactionCompleted ==> j@ is ContextCompactionCompleted,
        j matches JournalEntry::TurnInterrupted { reason } ==> j@ == (EntryView::TurnInterrupted { reason: reason@ }),
        j matches JournalEntry::ProviderUsage { prompt_tokens, completion_tokens } ==> j@ == (EntryView::ProviderUsage { prompt_tokens, completion_tokens }),
{
}

/// What is seen of a journal record is all that it holds.
pub proof fn law_journal_record_is_seen_whole(j: JournalRecord)
    ensures
        j@.seq == j.seq,
        j@.thread_id == j.thread_id@,
        j@.turn_id == j.turn_id@,
        j@.entry == j.entry@,
        j@.created_at == j.created_at,
{
}

/// The records of a list are seen one by one, in their order.
pub proof fn law_records_are_seen_in_order(v: Seq<JournalRecord>, i: int)
    ensures
        records(v).len() == v.len(),
        0 <= i < v.len() ==> records(v)[i] == v[i]@,
{
}

} // verus!
