//! The events that hosts observe. Every visible change of state is one frame,
//! numbered within its thread.

use super::id::{MessageId, SubagentId, ThreadId, ToolCallId, TurnId};
use super::op::SubmissionId;
use crate::text;
use vstd::prelude::*;

verus! {

/// How a host may present a reasoning event.
#[derive(Debug, Clone, Copy, PartialEq, Eq, Structural)]
pub enum ReasoningVisibility {
    /// The host may show the reasoning inline.
    HostRenderable,
    /// The host does not show it but must keep it.
    ReplayOnly,
}

/// One atom of observable state change.
#[derive(Debug)]
pub enum EventFrame {
    ThreadCreated { thread_id: ThreadId, workspace: String },
    ThreadUpdated { thread_id: ThreadId },
    ThreadArchived { thread_id: ThreadId },
    TurnStarted { thread_id: ThreadId, turn_id: TurnId, user_input: String },
    TurnSteered { thread_id: ThreadId, turn_id: TurnId, steering_input: String },
    TurnInterrupted { thread_id: ThreadId, turn_id: TurnId },
    AssistantMessageDelta { turn_id: TurnId, message_id: MessageId, delta: String },
    AssistantMessageCompleted { turn_id: TurnId, message_id: MessageId },
    AssistantReasoningDelta { turn_id: TurnId, message_id: MessageId, delta: String, replay_required: bool, visibility: ReasoningVisibility },
    AssistantReasoningCompleted { turn_id: TurnId, message_id: MessageId, replay_required: bool },
    ToolCallStarted { turn_id: TurnId, call_id: ToolCallId, tool_name: String },
    ToolCallArgumentsDelta { turn_id: TurnId, call_id: ToolCallId, delta: String },
    ToolCallRequiresApproval { turn_id: TurnId, call_id: ToolCallId, tool_name: String, reason: String },
    ToolCallApproved { turn_id: TurnId, call_id: ToolCallId },
    ToolCallRejected { turn_id: TurnId, call_id: ToolCallId },
    ToolCallCompleted { turn_id: TurnId, call_id: ToolCallId, tool_name: String, success: bool, output_preview: Option<String> },
    ToolCallFailed { turn_id: TurnId, call_id: ToolCallId, error: String },
    ContextCompactionStarted { turn_id: TurnId },
    ContextCompactionCompleted { turn_id: TurnId },
    SubagentSpawned { parent_turn_id: TurnId, subagent_id: SubagentId, task: String },
    SubagentCompleted { parent_turn_id: TurnId, subagent_id: SubagentId, result_summary: String },
    SubagentFailed { parent_turn_id: TurnId, subagent_id: SubagentId, error: String },
    TurnCompleted { turn_id: TurnId },
    TurnFailed { turn_id: TurnId, error: String },
    RuntimeWarning { message: String },
}

/// What an event frame says, over plain texts.
pub enum FrameView {
    ThreadCreated { thread_id: Seq<char>, workspace: Seq<char> },
    ThreadUpdated { thread_id: Seq<char> },
    ThreadArchived { thread_id: Seq<char> },
    TurnStarted { thread_id: Seq<char>, turn_id: Seq<char>, user_input: Seq<char> },
    TurnSteered { thread_id: Seq<char>, turn_id: Seq<char>, steering_input: Seq<char> },
    TurnInterrupted { thread_id: Seq<char>, turn_id: Seq<char> },
    AssistantMessageDelta { turn_id: Seq<char>, message_id: Seq<char>, delta: Seq<char> },
    AssistantMessageCompleted { turn_id: Seq<char>, message_id: Seq<char> },
    AssistantReasoningDelta { turn_id: Seq<char>, message_id: Seq<char>, delta: Seq<char>, replay_required: bool, visibility: ReasoningVisibility },
    AssistantReasoningCompleted { turn_id: Seq<char>, message_id: Seq<char>, replay_required: bool },
    ToolCallStarted { turn_id: Seq<char>, call_id: Seq<char>, tool_name: Seq<char> },
    ToolCallArgumentsDelta { turn_id: Seq<char>, call_id: Seq<char>, delta: Seq<char> },
    ToolCallRequiresApproval { turn_id: Seq<char>, call_id: Seq<char>, tool_name: Seq<char>, reason: Seq<char> },
    ToolCallApproved { turn_id: Seq<char>, call_id: Seq<char> },
    ToolCallRejected { turn_id: Seq<char>, call_id: Seq<char> },
    ToolCallCompleted { turn_id: Seq<char>, call_id: Seq<char>, tool_name: Seq<char>, success: bool, output_preview: Option<Seq<char>> },
    ToolCallFailed { turn_id: Seq<char>, call_id: Seq<char>, error: Seq<char> },
    ContextCompactionStarted { turn_id: Seq<char> },
    ContextCompactionCompleted { turn_id: Seq<char> },
    SubagentSpawned { parent_turn_id: Seq<char>, subagent_id: Seq<char>, task: Seq<char> },
    SubagentCompleted { parent_turn_id: Seq<char>, subagent_id: Seq<char>, result_summary: Seq<char> },
    SubagentFailed { parent_turn_id: Seq<char>, subagent_id: Seq<char>, error: Seq<char> },
    TurnCompleted { turn_id: Seq<char> },
    TurnFailed { turn_id: Seq<char>, error: Seq<char> },
    RuntimeWarning { message: Seq<char> },
}

impl View for EventFrame {
    type V = FrameView;

    open spec fn view(&self) -> FrameView {
        match *self {
            EventFrame::ThreadCreated { thread_id, workspace } => FrameView::ThreadCreated { thread_id: thread_id@, workspace: workspace@ },
            EventFrame::ThreadUpdated { thread_id } => FrameView::ThreadUpdated { thread_id: thread_id@ },
            EventFrame::ThreadArchived { thread_id } => FrameView::ThreadArchived { thread_id: thread_id@ },
            EventFrame::TurnStarted { thread_id, turn_id, user_input } => FrameView::TurnStarted { thread_id: thread_id@, turn_id: turn_id@, user_input: user_input@ },
            EventFrame::TurnSteered { thread_id, turn_id, steering_input } => FrameView::TurnSteered { thread_id: thread_id@, turn_id: turn_id@, steering_input: steering_input@ },
            EventFrame::TurnInterrupted { thread_id, turn_id } => FrameView::TurnInterrupted { thread_id: thread_id@, turn_id: turn_id@ },
            EventFrame::AssistantMessageDelta { turn_id, message_id, delta } => FrameView::AssistantMessageDelta { turn_id: turn_id@, message_id: message_id@, delta: delta@ },
            EventFrame::AssistantMessageCompleted { turn_id, message_id } => FrameView::AssistantMessageCompleted { turn_id: turn_id@, message_id: message_id@ },
            EventFrame::AssistantReasoningDelta { turn_id, message_id, delta, replay_required, visibility } => FrameView::AssistantReasoningDelta { turn_id: turn_id@, message_id: message_id@, delta: delta@, replay_required, visibility },
            EventFrame::AssistantReasoningCompleted { turn_id, message_id, replay_required } => FrameView::AssistantReasoningCompleted { turn_id: turn_id@, message_id: message_id@, replay_required },
            EventFrame::ToolCallStarted { turn_id, call_id, tool_name } => FrameView::ToolCallStarted { turn_id: turn_id@, call_id: call_id@, tool_name: tool_name@ },
            EventFrame::ToolCallArgumentsDelta { turn_id, call_id, delta } => FrameView::ToolCallArgumentsDelta { turn_id: turn_id@, call_id: call_id@, delta: delta@ },
            EventFrame::ToolCallRequiresApproval { turn_id, call_id, tool_name, reason } => FrameView::ToolCallRequiresApproval { turn_id: turn_id@, call_id: call_id@, tool_name: tool_name@, reason: reason@ },
            EventFrame::ToolCallApproved { turn_id, call_id } => FrameView::ToolCallApproved { turn_id: turn_id@, call_id: call_id@ },
            EventFrame::ToolCallRejected { turn_id, call_id } => FrameView::ToolCallRejected { turn_id: turn_id@, call_id: call_id@ },
            EventFrame::ToolCallCompleted { turn_id, call_id, tool_name, success, output_preview } => FrameView::ToolCallCompleted { turn_id: turn_id@, call_id: call_id@, tool_name: tool_name@, success, output_preview: text::opt_text(output_preview) },
            EventFrame::ToolCallFailed { turn_id, call_id, error } => FrameView::ToolCallFailed { turn_id: turn_id@, call_id: call_id@, error: error@ },
            EventFrame::ContextCompactionStarted { turn_id } => FrameView::ContextCompactionStarted { turn_id: turn_id@ },
            EventFrame::ContextCompactionCompleted { turn_id } => FrameView::ContextCompactionCompleted { turn_id: turn_id@ },
            EventFrame::SubagentSpawned { parent_turn_id, subagent_id, task } => FrameView::SubagentSpawned { parent_turn_id: parent_turn_id@, subagent_id: subagent_id@, task: task@ },
            EventFrame::SubagentCompleted { parent_turn_id, subagent_id, result_summary } => FrameView::SubagentCompleted { parent_turn_id: parent_turn_id@, subagent_id: subagent_id@, result_summary: result_summary@ },
            EventFrame::SubagentFailed { parent_turn_id, subagent_id, error } => FrameView::SubagentFailed { parent_turn_id: parent_turn_id@, subagent_id: subagent_id@, error: error@ },
            EventFrame::TurnCompleted { turn_id } => FrameView::TurnCompleted { turn_id: turn_id@ },
            EventFrame::TurnFailed { turn_id, error } => FrameView::TurnFailed { turn_id: turn_id@, error: error@ },
            EventFrame::RuntimeWarning { message } => FrameView::RuntimeWarning { message: message@ },
        }
    }
}

impl Clone for EventFrame {
    fn clone(&self) -> (r: Self)
        ensures
            r@ == self@,
    {
        match self {
            EventFrame::ThreadCreated { thread_id, workspace } => EventFrame::ThreadCreated { thread_id: thread_id.clone(), workspace: workspace.clone() },
            EventFrame::ThreadUpdated { thread_id } => EventFrame::ThreadUpdated { thread_id: thread_id.clone() },
            EventFrame::ThreadArchived { thread_id } => EventFrame::ThreadArchived { thread_id: thread_id.clone() },
            EventFrame::TurnStarted { thread_id, turn_id, user_input } => EventFrame::TurnStarted { thread_id: thread_id.clone(), turn_id: turn_id.clone(), user_input: user_input.clone() },
            EventFrame::TurnSteered { thread_id, turn_id, steering_input } => EventFrame::TurnSteered { thread_id: thread_id.clone(), turn_id: turn_id.clone(), steering_input: steering_input.clone() },
            EventFrame::TurnInterrupted { thread_id, turn_id } => EventFrame::TurnInterrupted { thread_id: thread_id.clone(), turn_id: turn_id.clone() },
            EventFrame::AssistantMessageDelta { turn_id, message_id, delta } => EventFrame::AssistantMessageDelta { turn_id: turn_id.clone(), message_id: message_id.clone(), delta: delta.clone() },
            EventFrame::AssistantMessageCompleted { turn_id, message_id } => EventFrame::AssistantMessageCompleted { turn_id: turn_id.clone(), message_id: message_id.clone() },
            EventFrame::AssistantReasoningDelta { turn_id, message_id, delta, replay_required, visibility } => EventFrame::AssistantReasoningDelta { turn_id: turn_id.clone(), message_id: message_id.clone(), delta: delta.clone(), replay_required: *replay_required, visibility: *visibility },
            EventFrame::AssistantReasoningCompleted { turn_id, message_id, replay_required } => EventFrame::AssistantReasoningCompleted { turn_id: turn_id.clone(), message_id: message_id.clone(), replay_required: *replay_required },
            EventFrame::ToolCallStarted { turn_id, call_id, tool_name } => EventFrame::ToolCallStarted { turn_id: turn_id.clone(), call_id: call_id.clone(), tool_name: tool_name.clone() },
            EventFrame::ToolCallArgumentsDelta { turn_id, call_id, delta } => EventFrame::ToolCallArgumentsDelta { turn_id: turn_id.clone(), call_id: call_id.clone(), delta: delta.clone() },
            EventFrame::ToolCallRequiresApproval { turn_id, call_id, tool_name, reason } => EventFrame::ToolCallRequiresApproval { turn_id: turn_id.clone(), call_id: call_id.clone(), tool_name: tool_name.clone(), reason: reason.clone() },
            EventFrame::ToolCallApproved { turn_id, call_id } => EventFrame::ToolCallApproved { turn_id: turn_id.clone(), call_id: call_id.clone() },
            EventFrame::ToolCallRejected { turn_id, call_id } => EventFrame::ToolCallRejected { turn_id: turn_id.clone(), call_id: call_id.clone() },
            EventFrame::ToolCallCompleted { turn_id, call_id, tool_name, success, output_preview } => EventFrame::ToolCallCompleted { turn_id: turn_id.clone(), call_id: call_id.clone(), tool_name: tool_name.clone(), success: *success, output_preview: text::clone_opt(output_preview) },
            EventFrame::ToolCallFailed { turn_id, call_id, error } => EventFrame::ToolCallFailed { turn_id: turn_id.clone(), call_id: call_id.clone(), error: error.clone() },
            EventFrame::ContextCompactionStarted { turn_id } => EventFrame::ContextCompactionStarted { turn_id: turn_id.clone() },
            EventFrame::ContextCompactionCompleted { turn_id } => EventFrame::ContextCompactionCompleted { turn_id: turn_id.clone() },
            EventFrame::SubagentSpawned { parent_turn_id, subagent_id, task } => EventFrame::SubagentSpawned { parent_turn_id: parent_turn_id.clone(), subagent_id: subagent_id.clone(), task: task.clone() },
            EventFrame::SubagentCompleted { parent_turn_id, subagent_id, result_summary } => EventFrame::SubagentCompleted { parent_turn_id: parent_turn_id.clone(), subagent_id: subagent_id.clone(), result_summary: result_summary.clone() },
            EventFrame::SubagentFailed { parent_turn_id, subagent_id, error } => EventFrame::SubagentFailed { parent_turn_id: parent_turn_id.clone(), subagent_id: subagent_id.clone(), error: error.clone() },
            EventFrame::TurnCompleted { turn_id } => EventFrame::TurnCompleted { turn_id: turn_id.clone() },
            EventFrame::TurnFailed { turn_id, error } => EventFrame::TurnFailed { turn_id: turn_id.clone(), error: error.clone() },
            EventFrame::RuntimeWarning { message } => EventFrame::RuntimeWarning { message: message.clone() },
        }
    }
}

/// A message on the event queue of a session: one stage in the life of a submission.
#[derive(Debug)]
pub enum EventMsg {
    /// The session accepted the submission.
    SubmissionStarted { thread_id: ThreadId },
    /// The operation is about to be carried out.
    OpStarted { thread_id: ThreadId },
    /// The operation succeeded.
    OpCompleted { thread_id: ThreadId, turn_id: Option<TurnId>, status: String, user_input: String },
    /// The operation failed.
    OpFailed { thread_id: ThreadId, error: String },
    /// The session is done with the submission.
    SubmissionCompleted { thread_id: ThreadId },
    /// An event frame of the journal.
    Frame { seq: i64, frame: EventFrame },
    /// The session ended.
    StreamClosed { thread_id: ThreadId },
}

/// What a session message says, over plain texts.
pub enum MsgView {
    SubmissionStarted { thread_id: Seq<char> },
    OpStarted { thread_id: Seq<char> },
    OpCompleted { thread_id: Seq<char>, turn_id: Option<Seq<char>>, status: Seq<char>, user_input: Seq<char> },
    OpFailed { thread_id: Seq<char>, error: Seq<char> },
    SubmissionCompleted { thread_id: Seq<char> },
    Frame { seq: i64, frame: FrameView },
    StreamClosed { thread_id: Seq<char> },
}

impl View for EventMsg {
    type V = MsgView;

    open spec fn view(&self) -> MsgView {
        match *self {
            EventMsg::SubmissionStarted { thread_id } => MsgView::SubmissionStarted { thread_id: thread_id@ },
            EventMsg::OpStarted { thread_id } => MsgView::OpStarted { thread_id: thread_id@ },
            EventMsg::OpCompleted { thread_id, turn_id, status, user_input } => MsgView::OpCompleted { thread_id: thread_id@, turn_id: (match turn_id { Some(v) => Some(v@), None => None }), status: status@, user_input: user_input@ },
            EventMsg::OpFailed { thread_id, error } => MsgView::OpFailed { thread_id: thread_id@, error: error@ },
            EventMsg::SubmissionCompleted { thread_id } => MsgView::SubmissionCompleted { thread_id: thread_id@ },
            EventMsg::Frame { seq, frame } => MsgView::Frame { seq, frame: frame@ },
            EventMsg::StreamClosed { thread_id } => MsgView::StreamClosed { thread_id: thread_id@ },
        }
    }
}

impl Clone for EventMsg {
    fn clone(&self) -> (r: Self)
        ensures
            r@ == self@,
    {
        match self {
            EventMsg::SubmissionStarted { thread_id } => EventMsg::SubmissionStarted { thread_id: thread_id.clone() },
            EventMsg::OpStarted { thread_id } => EventMsg::OpStarted { thread_id: thread_id.clone() },
            EventMsg::OpCompleted { thread_id, turn_id, status, user_input } => EventMsg::OpCompleted { thread_id: thread_id.clone(), turn_id: (match turn_id { Some(v) => Some(v.clone()), None => None }), status: status.clone(), user_input: user_input.clone() },
            EventMsg::OpFailed { thread_id, error } => EventMsg::OpFailed { thread_id: thread_id.clone(), error: error.clone() },
            EventMsg::SubmissionCompleted { thread_id } => EventMsg::SubmissionCompleted { thread_id: thread_id.clone() },
            EventMsg::Frame { seq, frame } => EventMsg::Frame { seq: *seq, frame: frame.clone() },
            EventMsg::StreamClosed { thread_id } => EventMsg::StreamClosed { thread_id: thread_id.clone() },
        }
    }
}

/// A session message with the submission it belongs to.
#[derive(Debug)]
pub struct Event {
    pub id: SubmissionId,
    pub msg: EventMsg,
}

/// A session message and the text of its submission id.
pub struct SessionEventView {
    pub id: Seq<char>,
    pub msg: MsgView,
}

impl View for Event {
    type V = SessionEventView;

    open spec fn view(&self) -> SessionEventView {
        SessionEventView {
            id: self.id@,
            msg: self.msg@,
        }
    }
}

impl Clone for Event {
    fn clone(&self) -> (r: Self)
        ensures
            r@ == self@,
    {
        Event {
            id: self.id.clone(),
            msg: self.msg.clone(),
        }
    }
}

/// A frame with the sequence number it was stored under.
#[derive(Debug)]
pub struct EventEnvelope {
    pub seq: i64,
    pub frame: EventFrame,
}

/// A numbered frame, over plain texts.
pub struct EnvelopeView {
    pub seq: i64,
    pub frame: FrameView,
}

impl View for EventEnvelope {
    type V = EnvelopeView;

    open spec fn view(&self) -> EnvelopeView {
        EnvelopeView {
            seq: self.seq,
            frame: self.frame@,
        }
    }
}

impl Clone for EventEnvelope {
    fn clone(&self) -> (r: Self)
        ensures
            r@ == self@,
    {
        EventEnvelope {
            seq: self.seq,
            frame: self.frame.clone(),
        }
    }
}

/// What is seen of an event frame is all that it holds.
pub proof fn law_event_frame_is_seen_whole(e: EventFrame)
    ensures
        e matches EventFrame::ThreadCreated { thread_id, workspace } ==> e@ == (FrameView::ThreadCreated { thread_id: thread_id@, workspace: workspace@ }),
        e matches EventFrame::ThreadUpdated { thread_id } ==> e@ == (FrameView::ThreadUpdated { thread_id: thread_id@ }),
        e matches EventFrame::ThreadArchived { thread_id } ==> e@ == (FrameView::ThreadArchived { thread_id: thread_id@ }),
        e matches EventFrame::TurnStarted { thread_id, turn_id, user_input } ==> e@ == (FrameView::TurnStarted { thread_id: thread_id@, turn_id: turn_id@, user_input: user_input@ }),
        e matches EventFrame::TurnSteered { thread_id, turn_id, steering_input } ==> e@ == (FrameView::TurnSteered { thread_id: thread_id@, turn_id: turn_id@, steering_input: steering_input@ }),
        e matches EventFrame::TurnInterrupted { thread_id, turn_id } ==> e@ == (FrameView::TurnInterrupted { thread_id: thread_id@, turn_id: turn_id@ }),
        e matches EventFrame::AssistantMessageDelta { turn_id, message_id, delta } ==> e@ == (FrameView::AssistantMessageDelta { turn_id: turn_id@, message_id: message_id@, delta: delta@ }),
        e matches EventFrame::AssistantMessageCompleted { turn_id, message_id } ==> e@ == (FrameView::AssistantMessageCompleted { turn_id: turn_id@, message_id: message_id@ }),
        e matches EventFrame::AssistantReasoningDelta { turn_id, message_id, delta, replay_required, visibility } ==> e@ == (FrameView::AssistantReasoningDelta { turn_id: turn_id@, message_id: message_id@, delta: delta@, replay_required, visibility }),
        e matches EventFrame::AssistantReasoningCompleted { turn_id, message_id, replay_required } ==> e@ == (FrameView::AssistantReasoningCompleted { turn_id: turn_id@, message_id: message_id@, replay_required }),
        e matches EventFrame::ToolCallStarted { turn_id, call_id, tool_name } ==> e@ == (FrameView::ToolCallStarted { turn_id: turn_id@, call_id: call_id@, tool_name: tool_name@ }),
        e matches EventFrame::ToolCallArgumentsDelta { turn_id, call_id, delta } ==> e@ == (FrameView::ToolCallArgumentsDelta { turn_id: turn_id@, call_id: call_id@, delta: delta@ }),
        e matches EventFrame::ToolCallRequiresApproval { turn_id, call_id, tool_name, reason } ==> e@ == (FrameView::ToolCallRequiresApproval { turn_id: turn_id@, call_id: call_id@, tool_name: tool_name@, reason: reason@ }),
        e matches EventFrame::ToolCallApproved { turn_id, call_id } ==> e@ == (FrameView::ToolCallApproved { turn_id: turn_id@, call_id: call_id@ }),
        e matches EventFrame::ToolCallRejected { turn_id, call_id } ==> e@ == (FrameView::ToolCallRejected { turn_id: turn_id@, call_id: call_id@ }),
        e matches EventFrame::ToolCallCompleted { turn_id, call_id, tool_name, success, output_preview } ==> e@ == (FrameView::ToolCallCompleted { turn_id: turn_id@, call_id: call_id@, tool_name: tool_name@, success, output_preview: text::opt_text(output_preview) }),
        e matches EventFrame::ToolCallFailed { turn_id, call_id, error } ==> e@ == (FrameView::ToolCallFailed { turn_id: turn_id@, call_id: call_id@, error: error@ }),
        e matches EventFrame::ContextCompactionStarted { turn_id } ==> e@ == (FrameView::ContextCompactionStarted { turn_id: turn_id@ }),
        e matches EventFrame::ContextCompactionCompleted { turn_id } ==> e@ == (FrameView::ContextCompactionCompleted { turn_id: turn_id@ }),
        e matches EventFrame::SubagentSpawned { parent_turn_id, subagent_id, task } ==> e@ == (FrameView::SubagentSpawned { parent_turn_id: parent_turn_id@, subagent_id: subagent_id@, task: task@ }),
        e matches EventFrame::SubagentCompleted { parent_turn_id, subagent_id, result_summary } ==> e@ == (FrameView::SubagentCompleted { parent_turn_id: parent_turn_id@, subagent_id: subagent_id@, result_summary: result_summary@ }),
        e matches EventFrame::SubagentFailed { parent_turn_id, subagent_id, error } ==> e@ == (FrameView::SubagentFailed { parent_turn_id: parent_turn_id@, subagent_id: subagent_id@, error: error@ }),
        e matches EventFrame::TurnCompleted { turn_id } ==> e@ == (FrameView::TurnCompleted { turn_id: turn_id@ }),
        e matches EventFrame::TurnFailed { turn_id, error } ==> e@ == (FrameView::TurnFailed { turn_id: turn_id@, error: error@ }),
        e matches EventFrame::RuntimeWarning { message } ==> e@ == (FrameView::RuntimeWarning { message: message@ }),
{
}

/// What is seen of an event msg is all that it holds.
pub proof fn law_event_msg_is_seen_whole(e: EventMsg)
    ensures
        e matches EventMsg::SubmissionStarted { thread_id } ==> e@ == (MsgView::SubmissionStarted { thread_id: thread_id@ }),
        e matches EventMsg::OpStarted { thread_id } ==> e@ == (MsgView::OpStarted { thread_id: thread_id@ }),
        e matches EventMsg::OpCompleted { thread_id, turn_id, status, user_input } ==> e@ == (MsgView::OpCompleted { thread_id: thread_id@, turn_id: (match turn_id { Some(v) => Some(v@), None => None }), status: status@, user_input: user_input@ }),
        e matches EventMsg::OpFailed { thread_id, error } ==> e@ == (MsgView::OpFailed { thread_id: thread_id@, error: error@ }),
        e matches EventMsg::SubmissionCompleted { thread_id } ==> e@ == (MsgView::SubmissionCompleted { thread_id: thread_id@ }),
        e matches EventMsg::Frame { seq, frame } ==> e@ == (MsgView::Frame { seq, frame: frame@ }),
        e matches EventMsg::StreamClosed { thread_id } ==> e@ == (MsgView::StreamClosed { thread_id: thread_id@ }),
{
}

/// What is seen of an event is all that it holds.
pub proof fn law_event_is_seen_whole(e: Event)
    ensures
        e@.id == e.id@,
        e@.msg == e.msg@,
{
}

/// What is seen of an event envelope is all that it holds.
pub proof fn law_event_envelope_is_seen_whole(e: EventEnvelope)
    ensures
        e@.seq == e.seq,
        e@.frame == e.frame@,
{
}

} // verus!
