//! The machine that runs a turn. It is told what the model streams, what was decided
//! of each tool call and what the tools returned, and says what to do next.

use super::config::{ConfigView, RunTurnRequest, TurnConfig};
use super::effect;
use super::effect::{EffectView, TurnEffect};
use crate::context::assembly;
use crate::context::assembly::{assemble_context, ContextFragment, FragmentGroup};
use crate::context::compaction;
use crate::context::manager;
use crate::context::request_compiler;
use crate::context::request_compiler::{CompileConfig, RequestCompiler, TurnRequestKind};
use crate::journal::{EntryView, JournalEntry};
use crate::json;
use crate::model;
use crate::model::{
    clone_messages, CallView, DeltaView, MessageRole, MessageView, ModelDelta, ModelMessage,
    ModelProviderError, ModelRequest, ModelToolCall, ReasoningReplay, ReplayView, RequestView,
};
use crate::protocol::event::{EventFrame, FrameView, ReasoningVisibility};
use crate::protocol::id::{MessageId, ThreadId, ToolCallId, TurnId};
use crate::protocol::tool::{clone_specs, OutputView, ToolOutput, ToolSpec, ToolSpecView};
use crate::protocol::turn::{ItemView, TurnItem};
use crate::text;
use serde_json::Value;
use vstd::prelude::*;
use vstd::string::*;

verus! {

/// How often a turn asks the model at most.
pub const MAX_ITERATIONS: u32 = 10;

/// A tool call while its arguments are streamed.
#[derive(Debug)]
pub struct ToolCallState {
    pub call_id: ToolCallId,
    pub tool_name: String,
    pub arguments: String,
}

/// A tool call under way, over plain texts.
pub struct CallStateView {
    pub call_id: Seq<char>,
    pub tool_name: Seq<char>,
    pub arguments: Seq<char>,
}

impl View for ToolCallState {
    type V = CallStateView;

    open spec fn view(&self) -> CallStateView {
        CallStateView {
            call_id: self.call_id@,
            tool_name: self.tool_name@,
            arguments: self.arguments@,
        }
    }
}

impl Clone for ToolCallState {
    fn clone(&self) -> (r: Self)
        ensures
            r@ == self@,
    {
        ToolCallState {
            call_id: self.call_id.clone(),
            tool_name: self.tool_name.clone(),
            arguments: self.arguments.clone(),
        }
    }
}

/// The reasoning of the model so far.
#[derive(Debug)]
pub struct ReasoningState {
    pub content: String,
    pub replay_required: bool,
}

/// Reasoning, over plain texts.
pub struct ReasoningView {
    pub content: Seq<char>,
    pub replay_required: bool,
}

impl View for ReasoningState {
    type V = ReasoningView;

    open spec fn view(&self) -> ReasoningView {
        ReasoningView {
            content: self.content@,
            replay_required: self.replay_required,
        }
    }
}

impl Clone for ReasoningState {
    fn clone(&self) -> (r: Self)
        ensures
            r@ == self@,
    {
        ReasoningState {
            content: self.content.clone(),
            replay_required: self.replay_required,
        }
    }
}

/// A tool call that is ready to run.
#[derive(Debug)]
pub struct PendingToolCall {
    pub call_id: ToolCallId,
    pub tool_name: String,
    pub arguments: Value,
}

/// A tool call that is ready to run, over plain texts.
pub struct PendingCallView {
    pub call_id: Seq<char>,
    pub tool_name: Seq<char>,
    pub arguments: Seq<char>,
}

impl View for PendingToolCall {
    type V = PendingCallView;

    open spec fn view(&self) -> PendingCallView {
        PendingCallView {
            call_id: self.call_id@,
            tool_name: self.tool_name@,
            arguments: json::json_text(self.arguments),
        }
    }
}

impl Clone for PendingToolCall {
    fn clone(&self) -> (r: Self)
        ensures
            r@ == self@,
    {
        PendingToolCall {
            call_id: self.call_id.clone(),
            tool_name: self.tool_name.clone(),
            arguments: self.arguments.clone(),
        }
    }
}

/// A tool call that the turn has made.
#[derive(Debug)]
pub struct CompletedToolCall {
    pub call_id: ToolCallId,
    pub tool_name: String,
}

/// A tool call that was made, over plain texts.
pub struct CompletedView {
    pub call_id: Seq<char>,
    pub tool_name: Seq<char>,
}

impl View for CompletedToolCall {
    type V = CompletedView;

    open spec fn view(&self) -> CompletedView {
        CompletedView {
            call_id: self.call_id@,
            tool_name: self.tool_name@,
        }
    }
}

impl Clone for CompletedToolCall {
    fn clone(&self) -> (r: Self)
        ensures
            r@ == self@,
    {
        CompletedToolCall {
            call_id: self.call_id.clone(),
            tool_name: self.tool_name.clone(),
        }
    }
}

/// How a turn ends.
#[derive(Debug)]
pub enum TurnResult {
    /// The model is done.
    Completed { turn_id: TurnId, answer: String, tool_calls: Vec<CompletedToolCall> },
    /// A tool call waits for the approval of a host.
    NeedsApproval { turn_id: TurnId, call_id: ToolCallId, tool_name: String, arguments: Value, approval_id: String },
}

/// The end of a turn, over plain texts.
pub enum ResultView {
    Completed { turn_id: Seq<char>, answer: Seq<char>, tool_calls: Seq<CompletedView> },
    NeedsApproval { turn_id: Seq<char>, call_id: Seq<char>, tool_name: Seq<char>, arguments: Seq<char>, approval_id: Seq<char> },
}

impl View for TurnResult {
    type V = ResultView;

    open spec fn view(&self) -> ResultView {
        match *self {
            TurnResult::Completed { turn_id, answer, tool_calls } => ResultView::Completed { turn_id: turn_id@, answer: answer@, tool_calls: tool_calls@.map_values(|v: CompletedToolCall| v@) },
            TurnResult::NeedsApproval { turn_id, call_id, tool_name, arguments, approval_id } => ResultView::NeedsApproval { turn_id: turn_id@, call_id: call_id@, tool_name: tool_name@, arguments: json::json_text(arguments), approval_id: approval_id@ },
        }
    }
}

/// What was decided of a tool call.
#[derive(Debug)]
pub enum ToolDecision {
    Proceed,
    NeedsApproval { reason: String, approval_id: String },
    Forbidden { reason: String },
}

/// A decision on a tool call, over plain texts.
pub enum DecisionView {
    Proceed,
    NeedsApproval { reason: Seq<char>, approval_id: Seq<char> },
    Forbidden { reason: Seq<char> },
}

impl View for ToolDecision {
    type V = DecisionView;

    open spec fn view(&self) -> DecisionView {
        match *self {
            ToolDecision::Proceed => DecisionView::Proceed,
            ToolDecision::NeedsApproval { reason, approval_id } => DecisionView::NeedsApproval { reason: reason@, approval_id: approval_id@ },
            ToolDecision::Forbidden { reason } => DecisionView::Forbidden { reason: reason@ },
        }
    }
}

/// Under what the approval of a call is kept: the tool and its arguments, as a JSON
/// object.
pub open spec fn approval_key_text(tool_name: Seq<char>, arguments: Seq<char>) -> Seq<char> {
    json::json_object(
        seq![("tool_name"@, json::json_string(tool_name)), ("arguments"@, arguments)],
    )
}

/// The key under which the approval of a call is kept.
pub fn approval_key(tool_name: &str, arguments: &Value) -> (r: Value)
    ensures
        json::json_text(r) == approval_key_text(tool_name@, json::json_text(*arguments)),
{
    let mut fields: Vec<(String, Value)> = Vec::new();
    fields.push((text::owned("tool_name"), json::string(tool_name)));
    fields.push((text::owned("arguments"), arguments.clone()));
    assert(json::field_texts(fields@) =~= seq![
        ("tool_name"@, json::json_string(tool_name@)),
        ("arguments"@, json::json_text(*arguments)),
    ]);
    json::object(fields)
}

/// What a tool call came to: its output, or the text of its error.
#[derive(Debug)]
pub struct ToolCallResult {
    pub call_id: ToolCallId,
    pub tool_name: String,
    pub output: Result<ToolOutput, String>,
}

/// The result of a tool call, over plain texts.
pub struct CallResultView {
    pub call_id: Seq<char>,
    pub tool_name: Seq<char>,
    pub output: Result<OutputView, Seq<char>>,
}

impl View for ToolCallResult {
    type V = CallResultView;

    open spec fn view(&self) -> CallResultView {
        CallResultView {
            call_id: self.call_id@,
            tool_name: self.tool_name@,
            output: match self.output {
                Ok(o) => Ok(o@),
                Err(e) => Err(e@),
            },
        }
    }
}

/// Why a turn failed.
#[derive(Debug)]
pub enum TurnError {
    ProviderError(String),
    Timeout,
    UnknownTool(String),
    PolicyDenied(String),
    Cancelled,
    SubagentError(String),
}

/// The failure of a turn, over plain texts.
pub enum TurnErrorView {
    ProviderError(Seq<char>),
    Timeout,
    UnknownTool(Seq<char>),
    PolicyDenied(Seq<char>),
    Cancelled,
    SubagentError(Seq<char>),
}

impl View for TurnError {
    type V = TurnErrorView;

    open spec fn view(&self) -> TurnErrorView {
        match *self {
            TurnError::ProviderError(x) => TurnErrorView::ProviderError(x@),
            TurnError::Timeout => TurnErrorView::Timeout,
            TurnError::UnknownTool(x) => TurnErrorView::UnknownTool(x@),
            TurnError::PolicyDenied(x) => TurnErrorView::PolicyDenied(x@),
            TurnError::Cancelled => TurnErrorView::Cancelled,
            TurnError::SubagentError(x) => TurnErrorView::SubagentError(x@),
        }
    }
}

impl Clone for TurnError {
    fn clone(&self) -> (r: Self)
        ensures
            r@ == self@,
    {
        match self {
            TurnError::ProviderError(x) => TurnError::ProviderError(x.clone()),
            TurnError::Timeout => TurnError::Timeout,
            TurnError::UnknownTool(x) => TurnError::UnknownTool(x.clone()),
            TurnError::PolicyDenied(x) => TurnError::PolicyDenied(x.clone()),
            TurnError::Cancelled => TurnError::Cancelled,
            TurnError::SubagentError(x) => TurnError::SubagentError(x.clone()),
        }
    }
}

/// What the turn needs next.
#[derive(Debug)]
pub enum TurnStep {
    /// Send this request and stream the response.
    Stream { request: ModelRequest },
    /// Go on with the stream.
    Next,
    /// Decide of this tool call.
    Evaluate { call: PendingToolCall },
    /// Run these tool calls.
    Execute { calls: Vec<PendingToolCall> },
    /// Nothing: the turn is over.
    Done { result: TurnResult },
}

/// What the turn needs next, over plain texts.
pub enum StepView {
    Stream { request: RequestView },
    Next,
    Evaluate { call: PendingCallView },
    Execute { calls: Seq<PendingCallView> },
    Done { result: ResultView },
}

impl View for TurnStep {
    type V = StepView;

    open spec fn view(&self) -> StepView {
        match *self {
            TurnStep::Stream { request } => StepView::Stream { request: request@ },
            TurnStep::Next => StepView::Next,
            TurnStep::Evaluate { call } => StepView::Evaluate { call: call@ },
            TurnStep::Execute { calls } => StepView::Execute { calls: calls@.map_values(|v: PendingToolCall| v@) },
            TurnStep::Done { result } => StepView::Done { result: result@ },
        }
    }
}

impl TurnError {
    pub open spec fn message(&self) -> Seq<char> {
        self@.text()
    }

    pub fn to_string(&self) -> (r: String)
        ensures
            r@ == self.message(),
    {
        match self {
            TurnError::ProviderError(m) => text::cat("provider error: ", m.as_str()),
            TurnError::Timeout => text::owned("turn timed out"),
            TurnError::UnknownTool(m) => text::cat("unknown tool: ", m.as_str()),
            TurnError::PolicyDenied(m) => text::cat("policy denied: ", m.as_str()),
            TurnError::Cancelled => text::owned("turn cancelled"),
            TurnError::SubagentError(m) => text::cat("sub-agent error: ", m.as_str()),
        }
    }

    /// The failure of a turn whose provider failed.
    pub fn of_provider(e: &ModelProviderError) -> (r: TurnError)
        ensures
            r@ == TurnErrorView::ProviderError(e.message()),
    {
        TurnError::ProviderError(e.to_string())
    }
}

impl TurnErrorView {
    /// The text of the failure.
    pub open spec fn text(self) -> Seq<char> {
        match self {
            TurnErrorView::ProviderError(m) => "provider error: "@ + m,
            TurnErrorView::Timeout => "turn timed out"@,
            TurnErrorView::UnknownTool(m) => "unknown tool: "@ + m,
            TurnErrorView::PolicyDenied(m) => "policy denied: "@ + m,
            TurnErrorView::Cancelled => "turn cancelled"@,
            TurnErrorView::SubagentError(m) => "sub-agent error: "@ + m,
        }
    }
}

/// The state of a turn, over plain texts.
pub struct RunView {
    pub thread_id: Seq<char>,
    pub turn_id: Seq<char>,
    pub message_id: Seq<char>,
    pub model: Seq<char>,
    pub workspace: Seq<char>,
    pub max_output_tokens: Option<u64>,
    pub tools: Seq<ToolSpecView>,
    pub recording: bool,
    /// The conversation as it is sent to the model; it only grows.
    pub transcript: Seq<MessageView>,
    /// The text of the answer so far.
    pub answer: Seq<char>,
    /// How often the model was asked.
    pub iteration: nat,
    /// All tool calls of the turn.
    pub called: Seq<CallStateView>,
    /// The tool calls since the model was last asked.
    pub calls: Seq<CallView>,
    /// The tool calls that may run.
    pub batch: Seq<PendingCallView>,
    /// The tool call whose arguments are being streamed.
    pub active: Option<CallStateView>,
    pub reasoning: Option<ReasoningView>,
    /// Whether a tool was called since the model was last asked.
    pub had_call: bool,
    /// The tool call that a decision is awaited of.
    pub asking: Option<PendingCallView>,
}

/// What a turn does on an event: its next state, its effects and its next need.
pub struct Reaction {
    pub run: RunView,
    pub effects: Seq<EffectView>,
    pub step: StepView,
}

/// The tokens of a prompt, estimated as a quarter of the bytes of each message.
pub open spec fn prompt_estimate(v: Seq<MessageView>) -> nat
    decreases v.len(),
{
    if v.len() == 0 {
        0
    } else {
        prompt_estimate(v.drop_last()) + manager::opt_bytes(v.last().content) / 4
    }
}

/// Whether a tool succeeded, and the text of its output. A tool that failed has none.
pub open spec fn shown(output: Result<OutputView, Seq<char>>) -> (bool, Seq<char>) {
    match output {
        Ok(OutputView::Function { body, success }) => (
            success,
            match body {
                Some(b) => b,
                None => Seq::empty(),
            },
        ),
        Ok(OutputView::Mcp { result }) => (true, result),
        Err(e) => (false, Seq::empty()),
    }
}

/// The message that feeds the result of a tool back to the model.
pub open spec fn result_message(r: CallResultView) -> MessageView {
    let p = shown(r.output).1;
    request_compiler::tool_message(
        if p.len() == 0 {
            "tool executed"@
        } else {
            p
        },
        r.call_id,
    )
}

impl RunView {
    /// Whether the model may still be asked.
    pub open spec fn running(self) -> bool {
        self.iteration <= MAX_ITERATIONS
    }

    /// The effects of one tool result: it is recorded, shown to hosts, and written to
    /// the journal as a success or a failure.
    pub open spec fn result_effects(self, r: CallResultView) -> Seq<EffectView> {
        let (success, p) = shown(r.output);
        effect::recorded(
            self.recording,
            ItemView::ToolResult {
                call_id: r.call_id,
                tool_name: r.tool_name,
                output_preview: Some(p),
                success,
            },
        ) + effect::emitted(
            FrameView::ToolCallCompleted {
                turn_id: self.turn_id,
                call_id: r.call_id,
                tool_name: r.tool_name,
                success,
                output_preview: Some(p),
            },
        ) + effect::appended(
            self.turn_id,
            if success {
                EntryView::ToolCallCompleted {
                    call_id: r.call_id,
                    tool_name: r.tool_name,
                    success: true,
                    output: Some(p),
                    output_preview: Some(p),
                }
            } else {
                EntryView::ToolCallFailed { call_id: r.call_id, error: p }
            },
        )
    }

    /// The effects of tool results, one after the other.
    pub open spec fn results_effects(self, rs: Seq<CallResultView>) -> Seq<EffectView>
        decreases rs.len(),
    {
        if rs.len() == 0 {
            Seq::empty()
        } else {
            self.results_effects(rs.drop_last()) + self.result_effects(rs.last())
        }
    }

    /// The message of the assistant that made the tool calls of this round.
    pub open spec fn assistant_message(self) -> MessageView {
        MessageView {
            role: MessageRole::Assistant,
            content: if self.answer.len() == 0 {
                None
            } else {
                Some(self.answer)
            },
            tool_calls: self.calls,
            tool_call_id: None,
            reasoning_content: match self.reasoning {
                Some(r) => Some(r.content),
                None => None,
            },
        }
    }

    /// The transcript with the tool calls of this round and their results.
    pub open spec fn extended(self, rs: Seq<CallResultView>) -> Seq<MessageView> {
        self.transcript.push(self.assistant_message()) + rs.map_values(
            |r: CallResultView| result_message(r),
        )
    }

    /// The request that goes on with a transcript. Reasoning of this round is sent
    /// back.
    pub open spec fn follow_up(self, transcript: Seq<MessageView>) -> RequestView {
        RequestView {
            model: self.model,
            messages: transcript,
            tools: self.tools,
            max_output_tokens: self.max_output_tokens,
            system_prompt: None,
            replay_reasoning: match self.reasoning {
                Some(r) => Some(
                    seq![
                        ReplayView {
                            message_id: self.message_id,
                            reasoning_content: r.content,
                        },
                    ],
                ),
                None => None,
            },
        }
    }

    /// The end of a turn: it is traced, the answer is shown as complete where there is
    /// one, and the turn is over.
    pub open spec fn finish(self) -> Reaction {
        Reaction {
            run: self,
            effects: seq![EffectView::TraceTurnCompleted] + if self.answer.len() > 0 {
                effect::emitted(
                    FrameView::AssistantMessageCompleted {
                        turn_id: self.turn_id,
                        message_id: self.message_id,
                    },
                )
            } else {
                Seq::empty()
            },
            step: StepView::Done {
                result: ResultView::Completed {
                    turn_id: self.turn_id,
                    answer: self.answer,
                    tool_calls: self.called.map_values(
                        |c: CallStateView|
                            CompletedView { call_id: c.call_id, tool_name: c.tool_name },
                    ),
                },
            },
        }
    }

    /// The next round: the model is asked, unless it was asked often enough.
    pub open spec fn ask(self, request: RequestView) -> Reaction {
        let next = RunView {
            iteration: self.iteration + 1,
            active: None,
            reasoning: None,
            had_call: false,
            ..self
        };
        if next.iteration > MAX_ITERATIONS {
            next.finish()
        } else {
            Reaction {
                run: next,
                effects: seq![EffectView::TraceInference],
                step: StepView::Stream { request },
            }
        }
    }

    /// The end of a response: usage goes to the journal. Then the tool calls that may
    /// run are run; where there are none the turn is over.
    pub open spec fn on_stream_end(self) -> Reaction {
        let usage = effect::appended(
            self.turn_id,
            EntryView::ProviderUsage {
                prompt_tokens: prompt_estimate(self.transcript) as u64,
                completion_tokens: (text::byte_len(self.answer) / 4) as u64,
            },
        );
        if self.had_call && self.batch.len() > 0 {
            Reaction {
                run: RunView { batch: Seq::empty(), ..self },
                effects: usage + self.batch.map_values(
                    |c: PendingCallView| EffectView::TraceToolDispatch { tool_name: c.tool_name },
                ),
                step: StepView::Execute { calls: self.batch },
            }
        } else {
            let end = self.finish();
            Reaction { effects: usage + end.effects, ..end }
        }
    }

    /// A piece of the response, or its end.
    pub open spec fn on_delta(self, delta: Option<DeltaView>) -> Reaction {
        match delta {
            None => self.on_stream_end(),
            Some(DeltaView::End) => self.on_stream_end(),
            Some(DeltaView::Text(t)) => Reaction {
                run: RunView { answer: self.answer + t, ..self },
                effects: effect::recorded(self.recording, ItemView::AssistantDelta { delta: t })
                    + effect::emitted(
                    FrameView::AssistantMessageDelta {
                        turn_id: self.turn_id,
                        message_id: self.message_id,
                        delta: t,
                    },
                ),
                step: StepView::Next,
            },
            Some(DeltaView::Reasoning { delta, replay_required }) => Reaction {
                run: RunView {
                    reasoning: Some(
                        match self.reasoning {
                            Some(r) => ReasoningView { content: r.content + delta, ..r },
                            None => ReasoningView { content: delta, replay_required },
                        },
                    ),
                    ..self
                },
                effects: effect::emitted(
                    FrameView::AssistantReasoningDelta {
                        turn_id: self.turn_id,
                        message_id: self.message_id,
                        delta,
                        replay_required,
                        visibility: ReasoningVisibility::HostRenderable,
                    },
                ),
                step: StepView::Next,
            },
            Some(DeltaView::ToolCallStart { call_id, tool_name }) => Reaction {
                run: RunView {
                    active: Some(
                        CallStateView { call_id, tool_name, arguments: Seq::empty() },
                    ),
                    ..self
                },
                effects: effect::emitted(
                    FrameView::ToolCallStarted { turn_id: self.turn_id, call_id, tool_name },
                ) + effect::appended(
                    self.turn_id,
                    EntryView::ToolCallRequested { call_id, tool_name, arguments: "null"@ },
                ),
                step: StepView::Next,
            },
            Some(DeltaView::ToolCallArgumentsDelta { call_id, delta }) => Reaction {
                run: RunView {
                    active: match self.active {
                        Some(c) if c.call_id == call_id => Some(
                            CallStateView { arguments: c.arguments + delta, ..c },
                        ),
                        other => other,
                    },
                    ..self
                },
                effects: effect::emitted(
                    FrameView::ToolCallArgumentsDelta { turn_id: self.turn_id, call_id, delta },
                ),
                step: StepView::Next,
            },
            Some(DeltaView::ToolCallComplete { arguments, .. }) => self.on_call(arguments),
        }
    }

    /// A complete tool call: it is put to a decision. Where no call was started it is
    /// ignored.
    pub open spec fn on_call(self, arguments: Seq<char>) -> Reaction {
        match self.active {
            None => Reaction { run: self, effects: Seq::empty(), step: StepView::Next },
            Some(c) => {
                let call = PendingCallView {
                    call_id: c.call_id,
                    tool_name: c.tool_name,
                    arguments,
                };
                let reasoned = match self.reasoning {
                    Some(r) => effect::recorded(
                        self.recording,
                        ItemView::ReasoningBlock {
                            content: r.content,
                            replay_required: r.replay_required,
                        },
                    ) + effect::emitted(
                        FrameView::AssistantReasoningCompleted {
                            turn_id: self.turn_id,
                            message_id: self.message_id,
                            replay_required: r.replay_required,
                        },
                    ),
                    None => Seq::empty(),
                };
                Reaction {
                    run: RunView {
                        active: None,
                        had_call: true,
                        called: self.called.push(c),
                        calls: self.calls.push(
                            CallView {
                                call_id: c.call_id,
                                tool_name: c.tool_name,
                                arguments: json::json_parse_or_null(c.arguments),
                            },
                        ),
                        asking: Some(call),
                        ..self
                    },
                    effects: reasoned + effect::recorded(
                        self.recording,
                        ItemView::ToolCall {
                            call_id: c.call_id,
                            tool_name: c.tool_name,
                            arguments,
                        },
                    ),
                    step: StepView::Evaluate { call },
                }
            },
        }
    }

    /// A decision on the tool call that was asked about; `None` where no tool has its
    /// name. A call that may proceed joins the batch. One that needs approval is
    /// written to the journal and ends the turn. One that is forbidden is shown as
    /// failed.
    pub open spec fn on_decision(
        self,
        decision: Option<DecisionView>,
        config_json: Seq<char>,
    ) -> Reaction {
        match self.asking {
            None => Reaction { run: self, effects: Seq::empty(), step: StepView::Next },
            Some(call) => {
                let run = RunView { asking: None, ..self };
                match decision {
                    Some(DecisionView::Proceed) => Reaction {
                        run: RunView { batch: self.batch.push(call), ..run },
                        effects: Seq::empty(),
                        step: StepView::Next,
                    },
                    Some(DecisionView::NeedsApproval { reason, approval_id }) => Reaction {
                        run,
                        effects: effect::appended(
                            self.turn_id,
                            EntryView::ApprovalPending {
                                call_id: call.call_id,
                                approval_id,
                                tool_name: call.tool_name,
                                arguments: call.arguments,
                                reason,
                                model: self.model,
                                workspace: self.workspace,
                                config_json,
                            },
                        ),
                        step: StepView::Done {
                            result: ResultView::NeedsApproval {
                                turn_id: self.turn_id,
                                call_id: call.call_id,
                                tool_name: call.tool_name,
                                arguments: call.arguments,
                                approval_id,
                            },
                        },
                    },
                    Some(DecisionView::Forbidden { reason }) => Reaction {
                        run,
                        effects: effect::emitted(
                            FrameView::ToolCallFailed {
                                turn_id: self.turn_id,
                                call_id: call.call_id,
                                error: reason,
                            },
                        ),
                        step: StepView::Next,
                    },
                    None => Reaction {
                        run,
                        effects: effect::emitted(
                            FrameView::ToolCallFailed {
                                turn_id: self.turn_id,
                                call_id: call.call_id,
                                error: "unknown tool: "@ + call.tool_name,
                            },
                        ),
                        step: StepView::Next,
                    },
                }
            },
        }
    }

    /// The results of the batch: they are fed back to the model. Where there are none
    /// the turn is over.
    pub open spec fn on_results(self, rs: Seq<CallResultView>) -> Reaction {
        if rs.len() == 0 {
            self.finish()
        } else {
            let transcript = self.extended(rs);
            let next = RunView { transcript, calls: Seq::empty(), ..self }.ask(
                self.follow_up(transcript),
            );
            Reaction { effects: self.results_effects(rs) + next.effects, ..next }
        }
    }
}

/// A turn that is being run.
#[derive(Debug)]
pub struct TurnRun {
    model: String,
    workspace: String,
    max_output_tokens: Option<u64>,
    thread_id: ThreadId,
    turn_id: TurnId,
    message_id: MessageId,
    tool_specs: Vec<ToolSpec>,
    recording: bool,
    transcript: Vec<ModelMessage>,
    final_answer: String,
    iteration: u32,
    called: Vec<ToolCallState>,
    iteration_tool_calls: Vec<ModelToolCall>,
    batch: Vec<PendingToolCall>,
    active: Option<ToolCallState>,
    reasoning: Option<ReasoningState>,
    had_call: bool,
    asking: Option<PendingToolCall>,
}

pub open spec fn opt_state(o: Option<ToolCallState>) -> Option<CallStateView> {
    match o {
        Some(c) => Some(c@),
        None => None,
    }
}

pub open spec fn opt_reasoning(o: Option<ReasoningState>) -> Option<ReasoningView> {
    match o {
        Some(c) => Some(c@),
        None => None,
    }
}

pub open spec fn opt_content(o: Option<ReasoningView>) -> Seq<char> {
    match o {
        Some(r) => r.content,
        None => Seq::empty(),
    }
}

pub open spec fn opt_pending(o: Option<PendingToolCall>) -> Option<PendingCallView> {
    match o {
        Some(c) => Some(c@),
        None => None,
    }
}

pub open spec fn opt_delta(o: Option<ModelDelta>) -> Option<DeltaView> {
    match o {
        Some(c) => Some(c@),
        None => None,
    }
}

pub open spec fn opt_decision(o: Option<ToolDecision>) -> Option<DecisionView> {
    match o {
        Some(c) => Some(c@),
        None => None,
    }
}

pub open spec fn states(v: Seq<ToolCallState>) -> Seq<CallStateView> {
    v.map_values(|c: ToolCallState| c@)
}

pub open spec fn pendings(v: Seq<PendingToolCall>) -> Seq<PendingCallView> {
    v.map_values(|c: PendingToolCall| c@)
}

pub open spec fn calls(v: Seq<ModelToolCall>) -> Seq<CallView> {
    v.map_values(|c: ModelToolCall| c@)
}

pub open spec fn results(v: Seq<ToolCallResult>) -> Seq<CallResultView> {
    v.map_values(|c: ToolCallResult| c@)
}

impl View for TurnRun {
    type V = RunView;

    closed spec fn view(&self) -> RunView {
        RunView {
            thread_id: self.thread_id@,
            turn_id: self.turn_id@,
            message_id: self.message_id@,
            model: self.model@,
            workspace: self.workspace@,
            max_output_tokens: self.max_output_tokens,
            tools: model::tools(self.tool_specs@),
            recording: self.recording,
            transcript: model::messages(self.transcript@),
            answer: self.final_answer@,
            iteration: self.iteration as nat,
            called: states(self.called@),
            calls: calls(self.iteration_tool_calls@),
            batch: pendings(self.batch@),
            active: opt_state(self.active),
            reasoning: opt_reasoning(self.reasoning),
            had_call: self.had_call,
            asking: opt_pending(self.asking),
        }
    }
}

/// The fragments that every turn has: the system prompt where there is one, and the
/// workspace.
pub open spec fn is_base_context(config: ConfigView, v: Seq<ContextFragment>) -> bool {
    &&& v.len() == (if config.system_prompt is Some {
        2int
    } else {
        1
    })
    &&& v.last() is Environment
    &&& v.last().content() == "workspace: "@ + config.workspace
    &&& config.system_prompt matches Some(sys) ==> v[0] is System && v[0].content() == sys
}

/// Builds the fragments that every turn has.
pub fn build_context_fragments(config: &TurnConfig) -> (r: Vec<ContextFragment>)
    ensures
        is_base_context(config@, r@),
        assembly::cost(r@) <= u64::MAX,
{
    let mut out: Vec<ContextFragment> = Vec::new();
    if let Some(sys) = &config.system_prompt {
        out.push(ContextFragment::System { content: sys.clone() });
    }
    let content = text::cat("workspace: ", config.workspace.as_str());
    out.push(ContextFragment::Environment { content });
    let first: u64 = out[0].estimated_tokens();
    let last: u64 = out[out.len() - 1].estimated_tokens();
    proof {
        reveal_with_fuel(assembly::cost, 3);
        assert(assembly::cost(out@) <= first + last);
    }
    out
}

/// The fragments that every turn has are all kept, whatever the budget.
proof fn lemma_base_context(
    config: ConfigView,
    v: Seq<ContextFragment>,
    total: u64,
    out: Seq<ContextFragment>,
)
    requires
        is_base_context(config, v),
        assembly::is_laid_out(v, total, out),
    ensures
        out == v,
        assembly::reported(v, total) == Seq::<assembly::OverflowAction>::empty(),
{
    reveal(assembly::open_part);
    reveal(assembly::reported);
    reveal(Seq::filter);
    reveal_with_fuel(Seq::filter, 3);
    let w = v.drop_last();
    assert(v =~= w.push(v.last()));
    if config.system_prompt is Some {
        assert(w =~= Seq::empty().push(v[0]));
        assert(w.drop_last() =~= Seq::empty());
    } else {
        assert(w =~= Seq::empty());
    }
    assert(assembly::of_group(v, FragmentGroup::Plugins) =~= Seq::empty());
    assert(assembly::of_group(v, FragmentGroup::Skills) =~= Seq::empty());
    assert(assembly::of_group(v, FragmentGroup::History) =~= Seq::empty());
    assert(assembly::of_group(v, FragmentGroup::Schemas) =~= Seq::empty());
    assert(assembly::of_group(v, FragmentGroup::Protected) =~= w);
    assert(assembly::of_group(v, FragmentGroup::Environment) =~= seq![v.last()]);
    let limit = assembly::limit_of(total);
    let used = assembly::drops(v, total).before_cut;
    reveal_with_fuel(assembly::cut_reports, 2);
    assert forall|i: int| 0 <= i < w.len() implies out[i] == v[i] by {
        assert(!assembly::cut_at(limit, used, w, i));
        assert(out.take(w.len() as int)[i] == w[i]);
    }
    assert(assembly::open_part(v, total) =~= seq![v.last()]);
    assert(out.skip(w.len() as int)[0] == v.last());
    assert(out =~= v);
    assert(assembly::reported(v, total) =~= Seq::<assembly::OverflowAction>::empty());
}

/// Of the fragments that every turn has only the workspace becomes a message.
proof fn lemma_base_messages(config: ConfigView, v: Seq<ContextFragment>)
    requires
        is_base_context(config, v),
    ensures
        request_compiler::fragment_messages(v) == seq![environment_message(config)],
{
    reveal_with_fuel(request_compiler::fragment_messages, 3);
    assert(request_compiler::fragment_messages(v) =~= seq![environment_message(config)]);
}

/// Assembles the fragments that every turn has under its budget: nothing is dropped.
fn assemble_base(turn_id: &TurnId, config: &TurnConfig) -> (r: assembly::AssembledContext)
    requires
        config.token_budget * 65 <= u64::MAX,
    ensures
        is_base_context(config@, r.messages@),
        r.overflow_actions@ == Seq::<assembly::OverflowAction>::empty(),
{
    let fragments = build_context_fragments(config);
    let ghost base = fragments@;
    let assembled = assemble_context(turn_id.clone(), fragments, config.token_budget);
    proof {
        lemma_base_context(config@, base, config.token_budget, assembled.messages@);
    }
    assembled
}

/// The message that tells the model where it works.
pub open spec fn environment_message(config: ConfigView) -> MessageView {
    compaction::plain(
        MessageRole::User,
        request_compiler::marked("environment"@, "workspace: "@ + config.workspace),
    )
}

/// What stands before the conversation of every turn.
pub open spec fn turn_head(config: ConfigView) -> Seq<MessageView> {
    let first = match config.system_prompt {
        Some(sys) => seq![compaction::plain(MessageRole::System, sys)],
        None => Seq::empty(),
    };
    first.push(environment_message(config))
}

/// The first request of a turn. That of a new turn ends with the input of the user, behind
/// the history; any other goes on from the history.
pub open spec fn first_request(
    kind: TurnRequestKind,
    config: ConfigView,
    tools: Seq<ToolSpecView>,
    history: Seq<MessageView>,
    user_input: Seq<char>,
    replay: Option<Seq<ReplayView>>,
) -> RequestView {
    RequestView {
        model: config.model,
        messages: if kind is NewTurn {
            (turn_head(config) + history).push(compaction::plain(MessageRole::User, user_input))
        } else {
            turn_head(config) + history
        },
        tools,
        max_output_tokens: config.max_output_tokens,
        system_prompt: if kind is NewTurn {
            config.system_prompt
        } else {
            None
        },
        replay_reasoning: replay,
    }
}

/// The state in which a turn starts.
pub open spec fn first_run(
    request: RunTurnRequest,
    tools: Seq<ToolSpecView>,
    message_id: Seq<char>,
) -> RunView {
    RunView {
        thread_id: request.thread_id@,
        turn_id: request.turn_id@,
        message_id,
        model: request.config.model@,
        workspace: request.config.workspace@,
        max_output_tokens: request.config.max_output_tokens,
        tools,
        recording: request.recording,
        transcript: first_request(
            request.kind,
            request.config@,
            tools,
            model::messages(request.conversation_history@),
            request.user_input@,
            model::replays(request.reasoning_to_replay),
        ).messages,
        answer: Seq::empty(),
        iteration: 0,
        called: Seq::empty(),
        calls: Seq::empty(),
        batch: Seq::empty(),
        active: None,
        reasoning: None,
        had_call: false,
        asking: None,
    }
}

/// What a turn does when it starts: the input is recorded and the model is asked.
pub open spec fn on_start(
    request: RunTurnRequest,
    tools: Seq<ToolSpecView>,
    message_id: Seq<char>,
) -> Reaction {
    let next = first_run(request, tools, message_id).ask(
        first_request(
            request.kind,
            request.config@,
            tools,
            model::messages(request.conversation_history@),
            request.user_input@,
            model::replays(request.reasoning_to_replay),
        ),
    );
    Reaction {
        effects: effect::recorded(
            request.recording,
            ItemView::UserMessage { content: request.user_input@ },
        ) + next.effects,
        ..next
    }
}

/// Whether a tool succeeded, and the text of its output.
fn show_output(output: &Result<ToolOutput, String>) -> (r: (bool, String))
    ensures
        (r.0, r.1@) == shown(match *output {
            Ok(o) => Ok(o@),
            Err(e) => Err(e@),
        }),
{
    match output {
        Ok(ToolOutput::Function { body, success }) => match body {
            Some(b) => (*success, json::render(b)),
            None => (*success, String::new()),
        },
        Ok(ToolOutput::Mcp { result }) => (true, json::render(result)),
        Err(_) => (false, String::new()),
    }
}

/// The estimate for a prompt.
fn estimate_prompt(v: &Vec<ModelMessage>) -> (r: u64)
    requires
        prompt_estimate(model::messages(v@)) <= u64::MAX,
    ensures
        r == prompt_estimate(model::messages(v@)),
{
    let ghost all = model::messages(v@);
    let mut sum: u64 = 0;
    let mut i: usize = 0;
    assert(all.take(0) =~= Seq::empty());
    while i < v.len()
        invariant
            i <= v.len(),
            all == model::messages(v@),
            sum == prompt_estimate(all.take(i as int)),
            prompt_estimate(all) <= u64::MAX,
        decreases v.len() - i,
    {
        proof {
            assert(all.take(i + 1).drop_last() =~= all.take(i as int));
            assert(all.take(i + 1).last() == v@[i as int]@);
            lemma_prompt_grows(all, i + 1);
        }
        let n: usize = match &v[i].content {
            Some(s) => text::byte_count(s.as_str()),
            None => 0,
        };
        sum = sum + (n as u64) / 4;
        i = i + 1;
    }
    assert(all.take(i as int) =~= all);
    sum
}

/// Whether the estimate for a prompt is a number of the machine.
fn prompt_fits(v: &Vec<ModelMessage>) -> (r: bool)
    ensures
        r == (prompt_estimate(model::messages(v@)) <= u64::MAX),
{
    let ghost all = model::messages(v@);
    let mut sum: u64 = 0;
    let mut i: usize = 0;
    assert(all.take(0) =~= Seq::empty());
    while i < v.len()
        invariant
            i <= v.len(),
            all == model::messages(v@),
            sum == prompt_estimate(all.take(i as int)),
        decreases v.len() - i,
    {
        proof {
            assert(all.take(i + 1).drop_last() =~= all.take(i as int));
            assert(all.take(i + 1).last() == v@[i as int]@);
            lemma_prompt_grows(all, i + 1);
        }
        let n: usize = match &v[i].content {
            Some(s) => text::byte_count(s.as_str()),
            None => 0,
        };
        match sum.checked_add((n as u64) / 4) {
            Some(s) => sum = s,
            None => return false,
        }
        i = i + 1;
    }
    assert(all.take(i as int) =~= all);
    true
}

proof fn lemma_prompt_grows(v: Seq<MessageView>, i: int)
    requires
        0 <= i <= v.len(),
    ensures
        prompt_estimate(v.take(i)) <= prompt_estimate(v),
    decreases v.len(),
{
    if i < v.len() {
        lemma_prompt_grows(v.drop_last(), i);
        assert(v.drop_last().take(i) =~= v.take(i));
    } else {
        assert(v.take(i) =~= v);
    }
}

impl TurnRun {
    /// Starts a turn whose answer gets a new message id.
    pub fn start(request: RunTurnRequest, tool_specs: Vec<ToolSpec>) -> (r: (
        TurnRun,
        Vec<TurnEffect>,
        TurnStep,
    ))
        requires
            request.config.token_budget * 65 <= u64::MAX,
        ensures
            exists|id: Seq<char>|
                crate::protocol::id::is_fresh_id(id, "msg-"@) && r.0@ == (#[trigger] on_start(
                    request,
                    model::tools(tool_specs@),
                    id,
                )).run && effect::effects(r.1@) == on_start(
                    request,
                    model::tools(tool_specs@),
                    id,
                ).effects && r.2@ == on_start(request, model::tools(tool_specs@), id).step,
    {
        let id = MessageId::new();
        TurnRun::start_with(request, tool_specs, id)
    }

    /// Starts a turn.
    pub fn start_with(
        request: RunTurnRequest,
        tool_specs: Vec<ToolSpec>,
        message_id: MessageId,
    ) -> (r: (TurnRun, Vec<TurnEffect>, TurnStep))
        requires
            request.config.token_budget * 65 <= u64::MAX,
        ensures
            r.0@ == on_start(request, model::tools(tool_specs@), message_id@).run,
            effect::effects(r.1@) == on_start(
                request,
                model::tools(tool_specs@),
                message_id@,
            ).effects,
            r.2@ == on_start(request, model::tools(tool_specs@), message_id@).step,
    {
        let mut out: Vec<TurnEffect> = Vec::new();
        assert(effect::effects(out@) =~= Seq::empty());
        effect::record(
            &mut out,
            request.recording,
            TurnItem::UserMessage { content: request.user_input.clone() },
        );
        let first = TurnRun::first_model_request(&request, &tool_specs, &mut out);
        let mut run = TurnRun {
            model: request.config.model,
            workspace: request.config.workspace,
            max_output_tokens: request.config.max_output_tokens,
            thread_id: request.thread_id,
            turn_id: request.turn_id,
            message_id,
            tool_specs,
            recording: request.recording,
            transcript: clone_messages(&first.messages),
            final_answer: String::new(),
            iteration: 0,
            called: Vec::new(),
            iteration_tool_calls: Vec::new(),
            batch: Vec::new(),
            active: None,
            reasoning: None,
            had_call: false,
            asking: None,
        };
        assert(run@.called =~= Seq::empty());
        assert(run@.calls =~= Seq::empty());
        assert(run@.batch =~= Seq::empty());
        assert(run@ == first_run(request, model::tools(tool_specs@), message_id@));
        let step = run.ask(first, &mut out);
        (run, out, step)
    }

    /// Compiles the first request of a turn under its token budget. The fragments of a
    /// turn are never dropped, so nothing is shown of an overflow.
    fn first_model_request(
        request: &RunTurnRequest,
        tool_specs: &Vec<ToolSpec>,
        out: &mut Vec<TurnEffect>,
    ) -> (r: ModelRequest)
        requires
            request.config.token_budget * 65 <= u64::MAX,
        ensures
            r@ == first_request(
                request.kind,
                request.config@,
                model::tools(tool_specs@),
                model::messages(request.conversation_history@),
                request.user_input@,
                model::replays(request.reasoning_to_replay),
            ),
            final(out)@ == old(out)@,
    {
        let assembled = assemble_base(&request.turn_id, &request.config);
        if assembled.overflow_actions.len() > 0 {
            effect::emit(
                out,
                EventFrame::ContextCompactionStarted { turn_id: request.turn_id.clone() },
            );
            effect::emit(
                out,
                EventFrame::ContextCompactionCompleted { turn_id: request.turn_id.clone() },
            );
        }
        let compile = CompileConfig {
            system_prompt: match &request.config.system_prompt {
                Some(sys) => Some(sys.as_str()),
                None => None,
            },
            fragments: assembled.messages.as_slice(),
            tools: clone_specs(tool_specs),
            max_output_tokens: request.config.max_output_tokens,
            model: request.config.model.as_str(),
            reasoning_to_replay: model::clone_opt_replays(&request.reasoning_to_replay),
        };
        proof {
            lemma_base_messages(request.config@, assembled.messages@);
        }
        assert(compile.head() =~= turn_head(request.config@));
        let compiled = RequestCompiler::compile(
            request.kind,
            &compile,
            request.conversation_history.as_slice(),
            request.user_input.as_str(),
        );
        compiled.request
    }

    /// Asks the model again, or ends the turn.
    fn ask(&mut self, request: ModelRequest, out: &mut Vec<TurnEffect>) -> (r: TurnStep)
        requires
            old(self)@.running(),
        ensures
            final(self)@ == old(self)@.ask(request@).run,
            effect::effects(final(out)@) == effect::effects(old(out)@) + old(self)@.ask(
                request@,
            ).effects,
            r@ == old(self)@.ask(request@).step,
    {
        self.iteration = self.iteration + 1;
        self.active = None;
        self.reasoning = None;
        self.had_call = false;
        if self.iteration > MAX_ITERATIONS {
            return self.finish(out);
        }
        effect::add_effect(out, TurnEffect::TraceInference);
        TurnStep::Stream { request }
    }

    /// Ends the turn.
    fn finish(&self, out: &mut Vec<TurnEffect>) -> (r: TurnStep)
        ensures
            effect::effects(final(out)@) == effect::effects(old(out)@) + self@.finish().effects,
            r@ == self@.finish().step,
    {
        let ghost start = effect::effects(out@);
        effect::add_effect(out, TurnEffect::TraceTurnCompleted);
        if !self.final_answer.as_str().is_empty() {
            effect::emit(
                out,
                EventFrame::AssistantMessageCompleted {
                    turn_id: self.turn_id.clone(),
                    message_id: self.message_id.clone(),
                },
            );
        }
        assert(effect::effects(out@) =~= start + self@.finish().effects);
        let mut tool_calls: Vec<CompletedToolCall> = Vec::new();
        let mut i: usize = 0;
        while i < self.called.len()
            invariant
                i <= self.called.len(),
                tool_calls.len() == i,
                forall|j: int|
                    0 <= j < i ==> (#[trigger] tool_calls@[j])@ == (CompletedView {
                        call_id: self.called@[j].call_id@,
                        tool_name: self.called@[j].tool_name@,
                    }),
            decreases self.called.len() - i,
        {
            tool_calls.push(
                CompletedToolCall {
                    call_id: self.called[i].call_id.clone(),
                    tool_name: self.called[i].tool_name.clone(),
                },
            );
            i = i + 1;
        }
        let r = TurnStep::Done {
            result: TurnResult::Completed {
                turn_id: self.turn_id.clone(),
                answer: self.final_answer.clone(),
                tool_calls,
            },
        };
        assert(r@->result->tool_calls =~= self@.finish().step->result->tool_calls);
        r
    }

    /// Whether the end of the response can be taken in: the estimate for the prompt is
    /// a number of the machine.
    pub fn fits(&self) -> (r: bool)
        ensures
            r == (prompt_estimate(self@.transcript) <= u64::MAX),
    {
        prompt_fits(&self.transcript)
    }

    /// Takes in a piece of the response; `None` where the stream is over.
    pub fn on_delta(&mut self, delta: Option<ModelDelta>) -> (r: (Vec<TurnEffect>, TurnStep))
        requires
            prompt_estimate(old(self)@.transcript) <= u64::MAX,
        ensures
            final(self)@ == old(self)@.on_delta(opt_delta(delta)).run,
            effect::effects(r.0@) == old(self)@.on_delta(opt_delta(delta)).effects,
            r.1@ == old(self)@.on_delta(opt_delta(delta)).step,
    {
        let mut out: Vec<TurnEffect> = Vec::new();
        assert(effect::effects(out@) =~= Seq::empty());
        let ghost start = self@;
        match delta {
            None => self.on_stream_end(),
            Some(ModelDelta::End) => self.on_stream_end(),
            Some(ModelDelta::Text(t)) => {
                self.final_answer.append(t.as_str());
                effect::record(
                    &mut out,
                    self.recording,
                    TurnItem::AssistantDelta { delta: t.clone() },
                );
                effect::emit(
                    &mut out,
                    EventFrame::AssistantMessageDelta {
                        turn_id: self.turn_id.clone(),
                        message_id: self.message_id.clone(),
                        delta: t,
                    },
                );
                assert(effect::effects(out@) =~= start.on_delta(opt_delta(delta)).effects);
                (out, TurnStep::Next)
            },
            Some(ModelDelta::Reasoning { delta: piece, replay_required }) => {
                let next = match self.reasoning.take() {
                    Some(r) => {
                        let content = text::cat(r.content.as_str(), piece.as_str());
                        ReasoningState { content, replay_required: r.replay_required }
                    },
                    None => ReasoningState { content: piece.clone(), replay_required },
                };
                self.reasoning = Some(next);
                effect::emit(
                    &mut out,
                    EventFrame::AssistantReasoningDelta {
                        turn_id: self.turn_id.clone(),
                        message_id: self.message_id.clone(),
                        delta: piece,
                        replay_required,
                        visibility: ReasoningVisibility::HostRenderable,
                    },
                );
                assert(effect::effects(out@) =~= start.on_delta(opt_delta(delta)).effects);
                (out, TurnStep::Next)
            },
            Some(ModelDelta::ToolCallStart { call_id, tool_name }) => {
                let id = ToolCallId::from_string(call_id.as_str());
                effect::emit(
                    &mut out,
                    EventFrame::ToolCallStarted {
                        turn_id: self.turn_id.clone(),
                        call_id: id.clone(),
                        tool_name: tool_name.clone(),
                    },
                );
                effect::append(
                    &mut out,
                    self.turn_id.clone(),
                    JournalEntry::ToolCallRequested {
                        call_id: id.clone(),
                        tool_name: tool_name.clone(),
                        arguments: json::null(),
                    },
                );
                self.active = Some(
                    ToolCallState { call_id: id, tool_name, arguments: String::new() },
                );
                assert(effect::effects(out@) =~= start.on_delta(opt_delta(delta)).effects);
                (out, TurnStep::Next)
            },
            Some(ModelDelta::ToolCallArgumentsDelta { call_id, delta: piece }) => {
                self.active = match self.active.take() {
                    Some(c) => if text::str_eq(c.call_id.as_str(), call_id.as_str()) {
                        let arguments = text::cat(c.arguments.as_str(), piece.as_str());
                        Some(ToolCallState { call_id: c.call_id, tool_name: c.tool_name, arguments })
                    } else {
                        Some(c)
                    },
                    None => None,
                };
                effect::emit(
                    &mut out,
                    EventFrame::ToolCallArgumentsDelta {
                        turn_id: self.turn_id.clone(),
                        call_id: ToolCallId::from_string(call_id.as_str()),
                        delta: piece,
                    },
                );
                assert(effect::effects(out@) =~= start.on_delta(opt_delta(delta)).effects);
                (out, TurnStep::Next)
            },
            Some(ModelDelta::ToolCallComplete { call_id: _, tool_name: _, arguments }) => {
                self.on_call(arguments)
            },
        }
    }

    fn on_call(&mut self, arguments: Value) -> (r: (Vec<TurnEffect>, TurnStep))
        ensures
            final(self)@ == old(self)@.on_call(json::json_text(arguments)).run,
            effect::effects(r.0@) == old(self)@.on_call(json::json_text(arguments)).effects,
            r.1@ == old(self)@.on_call(json::json_text(arguments)).step,
    {
        let mut out: Vec<TurnEffect> = Vec::new();
        assert(effect::effects(out@) =~= Seq::empty());
        let ghost start = self@;
        match self.active.take() {
            None => (out, TurnStep::Next),
            Some(c) => {
                self.had_call = true;
                if let Some(r) = &self.reasoning {
                    effect::record(
                        &mut out,
                        self.recording,
                        TurnItem::ReasoningBlock {
                            content: r.content.clone(),
                            replay_required: r.replay_required,
                        },
                    );
                    effect::emit(
                        &mut out,
                        EventFrame::AssistantReasoningCompleted {
                            turn_id: self.turn_id.clone(),
                            message_id: self.message_id.clone(),
                            replay_required: r.replay_required,
                        },
                    );
                }
                effect::record(
                    &mut out,
                    self.recording,
                    TurnItem::ToolCall {
                        call_id: c.call_id.clone(),
                        tool_name: c.tool_name.clone(),
                        arguments: arguments.clone(),
                    },
                );
                self.iteration_tool_calls.push(
                    ModelToolCall {
                        call_id: c.call_id.to_string(),
                        tool_name: c.tool_name.clone(),
                        arguments: json::parse_or_null(c.arguments.as_str()),
                    },
                );
                let call = PendingToolCall {
                    call_id: c.call_id.clone(),
                    tool_name: c.tool_name.clone(),
                    arguments,
                };
                self.asking = Some(call.clone());
                self.called.push(c);
                let ghost want = start.on_call(json::json_text(arguments));
                assert(effect::effects(out@) =~= want.effects);
                assert(self@.called =~= want.run.called);
                assert(self@.calls =~= want.run.calls);
                (out, TurnStep::Evaluate { call })
            },
        }
    }

    fn on_stream_end(&mut self) -> (r: (Vec<TurnEffect>, TurnStep))
        requires
            prompt_estimate(old(self)@.transcript) <= u64::MAX,
        ensures
            final(self)@ == old(self)@.on_stream_end().run,
            effect::effects(r.0@) == old(self)@.on_stream_end().effects,
            r.1@ == old(self)@.on_stream_end().step,
    {
        let mut out: Vec<TurnEffect> = Vec::new();
        assert(effect::effects(out@) =~= Seq::empty());
        let ghost start = self@;
        let prompt_tokens: u64 = estimate_prompt(&self.transcript);
        let n: usize = text::byte_count(self.final_answer.as_str());
        effect::append(
            &mut out,
            self.turn_id.clone(),
            JournalEntry::ProviderUsage { prompt_tokens, completion_tokens: (n as u64) / 4 },
        );
        let ghost usage = effect::effects(out@);
        assert(usage =~= effect::appended(
            start.turn_id,
            EntryView::ProviderUsage {
                prompt_tokens: prompt_estimate(start.transcript) as u64,
                completion_tokens: (text::byte_len(start.answer) / 4) as u64,
            },
        ));
        if self.had_call && self.batch.len() > 0 {
            let mut batch: Vec<PendingToolCall> = Vec::new();
            batch.append(&mut self.batch);
            let ghost traced = start.batch.map_values(
                |c: PendingCallView| EffectView::TraceToolDispatch { tool_name: c.tool_name },
            );
            let mut i: usize = 0;
            assert(usage + traced.take(0) =~= usage);
            while i < batch.len()
                invariant
                    i <= batch.len(),
                    pendings(batch@) == start.batch,
                    traced == start.batch.map_values(
                        |c: PendingCallView|
                            EffectView::TraceToolDispatch { tool_name: c.tool_name },
                    ),
                    effect::effects(out@) == usage + traced.take(i as int),
                decreases batch.len() - i,
            {
                let ghost prior = effect::effects(out@);
                effect::add_effect(
                    &mut out,
                    TurnEffect::TraceToolDispatch { tool_name: batch[i].tool_name.clone() },
                );
                assert(traced[i as int] == (EffectView::TraceToolDispatch {
                    tool_name: pendings(batch@)[i as int].tool_name,
                }));
                assert(usage + traced.take(i + 1) =~= (usage + traced.take(i as int)) + seq![
                    traced[i as int],
                ]);
                i = i + 1;
            }
            assert(traced.take(i as int) =~= traced);
            assert(self@.batch =~= Seq::empty());
            return (out, TurnStep::Execute { calls: batch });
        }
        let step = self.finish(&mut out);
        (out, step)
    }

    /// Takes in the decision on the tool call that was asked about; `None` where no
    /// tool has its name. The settings of the turn are written to the journal as they
    /// are given where the call needs approval.
    pub fn on_decision(&mut self, decision: Option<ToolDecision>, config_json: String) -> (r: (
        Vec<TurnEffect>,
        TurnStep,
    ))
        ensures
            final(self)@ == old(self)@.on_decision(opt_decision(decision), config_json@).run,
            effect::effects(r.0@) == old(self)@.on_decision(
                opt_decision(decision),
                config_json@,
            ).effects,
            r.1@ == old(self)@.on_decision(opt_decision(decision), config_json@).step,
    {
        let mut out: Vec<TurnEffect> = Vec::new();
        assert(effect::effects(out@) =~= Seq::empty());
        let ghost start = self@;
        match self.asking.take() {
            None => (out, TurnStep::Next),
            Some(call) => match decision {
                Some(ToolDecision::Proceed) => {
                    let ghost before = self.batch@;
                    self.batch.push(call);
                    assert(self@.batch =~= start.batch.push(call@));
                    (out, TurnStep::Next)
                },
                Some(ToolDecision::NeedsApproval { reason, approval_id }) => {
                    effect::append(
                        &mut out,
                        self.turn_id.clone(),
                        JournalEntry::ApprovalPending {
                            call_id: call.call_id.clone(),
                            approval_id: approval_id.clone(),
                            tool_name: call.tool_name.clone(),
                            arguments: call.arguments.clone(),
                            reason,
                            model: self.model.clone(),
                            workspace: self.workspace.clone(),
                            config_json,
                        },
                    );
                    assert(effect::effects(out@) =~= start.on_decision(
                        opt_decision(decision),
                        config_json@,
                    ).effects);
                    (
                        out,
                        TurnStep::Done {
                            result: TurnResult::NeedsApproval {
                                turn_id: self.turn_id.clone(),
                                call_id: call.call_id,
                                tool_name: call.tool_name,
                                arguments: call.arguments,
                                approval_id,
                            },
                        },
                    )
                },
                Some(ToolDecision::Forbidden { reason }) => {
                    effect::emit(
                        &mut out,
                        EventFrame::ToolCallFailed {
                            turn_id: self.turn_id.clone(),
                            call_id: call.call_id,
                            error: reason,
                        },
                    );
                    assert(effect::effects(out@) =~= start.on_decision(
                        opt_decision(decision),
                        config_json@,
                    ).effects);
                    (out, TurnStep::Next)
                },
                None => {
                    effect::emit(
                        &mut out,
                        EventFrame::ToolCallFailed {
                            turn_id: self.turn_id.clone(),
                            call_id: call.call_id,
                            error: text::cat("unknown tool: ", call.tool_name.as_str()),
                        },
                    );
                    assert(effect::effects(out@) =~= start.on_decision(
                        opt_decision(decision),
                        config_json@,
                    ).effects);
                    (out, TurnStep::Next)
                },
            },
        }
    }

    /// Records one tool result, and returns the message that feeds it back.
    fn take_result(&self, result: &ToolCallResult, out: &mut Vec<TurnEffect>) -> (r: ModelMessage)
        ensures
            effect::effects(final(out)@) == effect::effects(old(out)@) + self@.result_effects(
                result@,
            ),
            r@ == result_message(result@),
    {
        let ghost start = effect::effects(out@);
        let (success, preview) = show_output(&result.output);
        effect::record(
            out,
            self.recording,
            TurnItem::ToolResult {
                call_id: result.call_id.clone(),
                tool_name: result.tool_name.clone(),
                output_preview: Some(preview.clone()),
                success,
            },
        );
        effect::emit(
            out,
            EventFrame::ToolCallCompleted {
                turn_id: self.turn_id.clone(),
                call_id: result.call_id.clone(),
                tool_name: result.tool_name.clone(),
                success,
                output_preview: Some(preview.clone()),
            },
        );
        let entry = if success {
            JournalEntry::ToolCallCompleted {
                call_id: result.call_id.clone(),
                tool_name: result.tool_name.clone(),
                success: true,
                output: Some(preview.clone()),
                output_preview: Some(preview.clone()),
            }
        } else {
            JournalEntry::ToolCallFailed {
                call_id: result.call_id.clone(),
                error: preview.clone(),
            }
        };
        effect::append(out, self.turn_id.clone(), entry);
        assert(effect::effects(out@) =~= start + self@.result_effects(result@));
        let content = if preview.as_str().is_empty() {
            text::owned("tool executed")
        } else {
            preview
        };
        request_compiler::tool_result_message(content, result.call_id.to_string())
    }

    /// Takes in the results of the tool calls that were run.
    pub fn on_results(&mut self, tool_results: Vec<ToolCallResult>) -> (r: (
        Vec<TurnEffect>,
        TurnStep,
    ))
        requires
            old(self)@.running(),
        ensures
            final(self)@ == old(self)@.on_results(results(tool_results@)).run,
            effect::effects(r.0@) == old(self)@.on_results(results(tool_results@)).effects,
            r.1@ == old(self)@.on_results(results(tool_results@)).step,
    {
        let mut out: Vec<TurnEffect> = Vec::new();
        assert(effect::effects(out@) =~= Seq::empty());
        let ghost start = self@;
        let ghost rs = results(tool_results@);
        if tool_results.len() == 0 {
            let step = self.finish(&mut out);
            assert(effect::effects(out@) =~= start.finish().effects);
            return (out, step);
        }
        let mut fed: Vec<ModelMessage> = Vec::new();
        let ghost said = rs.map_values(|r: CallResultView| result_message(r));
        let mut i: usize = 0;
        assert(rs.take(0) =~= Seq::empty());
        assert(model::messages(fed@) =~= said.take(0));
        while i < tool_results.len()
            invariant
                i <= tool_results.len(),
                *self == *old(self),
                self@ == start,
                rs == results(tool_results@),
                said == rs.map_values(|r: CallResultView| result_message(r)),
                effect::effects(out@) == start.results_effects(rs.take(i as int)),
                model::messages(fed@) == said.take(i as int),
            decreases tool_results.len() - i,
        {
            let ghost prior = fed@;
            proof {
                assert(rs.take(i + 1).drop_last() =~= rs.take(i as int));
                assert(rs.take(i + 1).last() == tool_results@[i as int]@);
            }
            let m = self.take_result(&tool_results[i], &mut out);
            fed.push(m);
            assert(model::messages(fed@) =~= model::messages(prior).push(m@));
            assert(said.take(i + 1) =~= said.take(i as int).push(said[i as int]));
            i = i + 1;
        }
        assert(rs.take(i as int) =~= rs);
        assert(said.take(i as int) =~= said);
        let mut made: Vec<ModelToolCall> = Vec::new();
        made.append(&mut self.iteration_tool_calls);
        assert(calls(made@) =~= start.calls);
        let assistant = ModelMessage {
            role: MessageRole::Assistant,
            content: if self.final_answer.as_str().is_empty() {
                None
            } else {
                Some(self.final_answer.clone())
            },
            tool_calls: made,
            tool_call_id: None,
            reasoning_content: match &self.reasoning {
                Some(r) => Some(r.content.clone()),
                None => None,
            },
        };
        assert(assistant@ == start.assistant_message());
        let ghost t0 = self.transcript@;
        self.transcript.push(assistant);
        assert(model::messages(self.transcript@) =~= start.transcript.push(assistant@));
        let ghost t1 = self.transcript@;
        let ghost fed0 = fed@;
        self.transcript.append(&mut fed);
        assert(model::messages(self.transcript@) =~= model::messages(t1) + model::messages(fed0));
        assert(self@.transcript == start.extended(rs));
        assert(self@.calls =~= Seq::empty());
        let replay_reasoning = match &self.reasoning {
            Some(r) => {
                let mut list: Vec<ReasoningReplay> = Vec::new();
                list.push(
                    ReasoningReplay {
                        message_id: self.message_id.clone(),
                        reasoning_content: r.content.clone(),
                    },
                );
                assert(list@.map_values(|x: ReasoningReplay| x@) =~= seq![
                    ReplayView {
                        message_id: start.message_id,
                        reasoning_content: opt_content(start.reasoning),
                    },
                ]);
                Some(list)
            },
            None => None,
        };
        let request = ModelRequest {
            model: self.model.clone(),
            messages: clone_messages(&self.transcript),
            tools: clone_specs(&self.tool_specs),
            max_output_tokens: self.max_output_tokens,
            system_prompt: None,
            replay_reasoning,
        };
        assert(request@ == start.follow_up(start.extended(rs)));
        let step = self.ask(request, &mut out);
        (out, step)
    }
}

/// Every entry that a turn writes is one of its own.
pub open spec fn all_of_turn(v: Seq<EffectView>, turn_id: Seq<char>) -> bool {
    forall|i: int|
        0 <= i < v.len() ==> ((#[trigger] v[i]) matches EffectView::Append { turn_id: t, .. } ==> t == turn_id)
}

/// Whatever a turn is told, each journal entry it writes belongs to it.
pub proof fn law_entries_of_own_turn(
    run: RunView,
    delta: Option<DeltaView>,
    decision: Option<DecisionView>,
    config_json: Seq<char>,
    rs: Seq<CallResultView>,
)
    ensures
        all_of_turn(run.on_delta(delta).effects, run.turn_id),
        all_of_turn(run.on_decision(decision, config_json).effects, run.turn_id),
        all_of_turn(run.on_results(rs).effects, run.turn_id),
{
    assert(all_of_turn(run.finish().effects, run.turn_id));
    assert(all_of_turn(run.on_stream_end().effects, run.turn_id));
    lemma_results_of_turn(run, rs);
    if rs.len() > 0 {
        let transcript = run.extended(rs);
        let next = RunView { transcript, calls: Seq::empty(), ..run };
        let request = run.follow_up(transcript);
        assert(all_of_turn(next.ask(request).effects, run.turn_id));
    }
}

proof fn lemma_results_of_turn(run: RunView, rs: Seq<CallResultView>)
    ensures
        all_of_turn(run.results_effects(rs), run.turn_id),
    decreases rs.len(),
{
    if rs.len() > 0 {
        lemma_results_of_turn(run, rs.drop_last());
    }
}

/// A turn begins by asking the model. A new turn sends what was said before and, last, the
/// input of the user; a turn that goes on sends what was said before and makes up no input.
pub proof fn law_input_is_sent(
    request: RunTurnRequest,
    tools: Seq<ToolSpecView>,
    message_id: Seq<char>,
)
    ensures
        ({
            let said = turn_head(request.config@) + model::messages(request.conversation_history@);
            let input = compaction::plain(MessageRole::User, request.user_input@);
            &&& on_start(request, tools, message_id).step matches StepView::Stream { request: q }
            &&& q.messages == if request.kind is NewTurn {
                said.push(input)
            } else {
                said
            }
            &&& on_start(request, tools, message_id).run.transcript == q.messages
        }),
{
}

/// The transcript of a turn only grows, and what it grows by are the tool calls of the
/// assistant and the results that came of them, a message for each.
pub proof fn law_transcript_grows(
    run: RunView,
    delta: Option<DeltaView>,
    decision: Option<DecisionView>,
    config_json: Seq<char>,
    rs: Seq<CallResultView>,
)
    ensures
        run.on_delta(delta).run.transcript == run.transcript,
        run.on_decision(decision, config_json).run.transcript == run.transcript,
        run.transcript.is_prefix_of(run.on_results(rs).run.transcript),
        rs.len() > 0 ==> run.on_results(rs).run.transcript.len() == run.transcript.len() + 1
            + rs.len() && run.on_results(rs).run.transcript.last().role is Tool,
{
}

/// The model is asked at most as often as is allowed: a request goes out only with a
/// higher count, and never beyond the limit.
pub proof fn law_requests_are_bounded(run: RunView, rs: Seq<CallResultView>)
    ensures
        run.on_results(rs).step is Stream ==> run.on_results(rs).run.iteration == run.iteration + 1
            && run.on_results(rs).run.iteration <= MAX_ITERATIONS,
        run.iteration >= MAX_ITERATIONS ==> run.on_results(rs).step is Done,
{
}

/// Only tool calls that were decided to proceed are run: a call joins the batch by that
/// decision and by nothing else, and what is run is the batch.
pub proof fn law_only_permitted_calls_run(
    run: RunView,
    delta: Option<DeltaView>,
    decision: Option<DecisionView>,
    config_json: Seq<char>,
    rs: Seq<CallResultView>,
)
    ensures
        run.on_delta(delta).step matches StepView::Execute { calls } ==> calls == run.batch,
        run.on_delta(delta).run.batch == run.batch || run.on_delta(delta).run.batch.len() == 0,
        run.on_results(rs).run.batch == run.batch,
        run.on_decision(decision, config_json).run.batch == (if decision == Some(
            DecisionView::Proceed,
        ) && run.asking is Some {
            run.batch.push(run.asking->0)
        } else {
            run.batch
        }),
        run.on_decision(decision, config_json).step !is Execute,
        run.on_results(rs).step !is Execute,
{
}

/// The id of the call that a decision is awaited of.
pub open spec fn asked_id(run: RunView) -> Option<Seq<char>> {
    match run.asking {
        Some(c) => Some(c.call_id),
        None => None,
    }
}

/// A call that needs approval is never run by the turn that asks: the turn is over, and
/// the journal holds what is needed to go on.
pub proof fn law_approval_ends_turn(
    run: RunView,
    reason: Seq<char>,
    approval_id: Seq<char>,
    config_json: Seq<char>,
)
    requires
        run.asking is Some,
    ensures
        ({
            let d = Some(DecisionView::NeedsApproval { reason, approval_id });
            let r = run.on_decision(d, config_json);
            &&& r.step matches StepView::Done { result } && result matches ResultView::NeedsApproval {
                approval_id: a,
                call_id,
                ..
            } && a == approval_id && Some(call_id) == asked_id(run)
            &&& r.effects.len() == 1
            &&& r.effects[0] matches EffectView::Append { entry, .. } && entry is ApprovalPending
        }),
{
}

/// The texts of the answer in a list of effects, one after the other.
pub open spec fn told(v: Seq<EffectView>) -> Seq<char>
    decreases v.len(),
{
    if v.len() == 0 {
        Seq::empty()
    } else {
        told(v.drop_last()) + match v.last() {
            EffectView::Append { entry: EntryView::AssistantDelta { delta, .. }, .. } => delta,
            _ => Seq::empty(),
        }
    }
}

/// What the journal tells of the answer is the answer: each piece of text makes the
/// answer longer by just what the journal is told, and no other piece changes it.
pub proof fn law_journal_tells_the_answer(run: RunView, delta: Option<DeltaView>)
    requires
        !(delta is None || delta == Some(DeltaView::End)),
    ensures
        run.on_delta(delta).run.answer == run.answer + told(run.on_delta(delta).effects),
{
    let fx = run.on_delta(delta).effects;
    reveal_with_fuel(told, 5);
    if fx.len() > 0 {
        let a = fx.drop_last();
        if a.len() > 0 {
            let b = a.drop_last();
            if b.len() > 0 {
                assert(b.drop_last().len() == 0);
            }
        }
    }
    assert(run.on_delta(delta).run.answer =~= run.answer + told(fx));
}

/// A tool call is put to the decision, run, and put to a host for approval as the model made
/// it: under the id and the name with which it started, and with the arguments with which it
/// was completed. It is run behind the calls that may run already, and no call is changed.
pub proof fn law_call_is_run_as_it_was_made(
    run: RunView,
    call_id: Seq<char>,
    tool_name: Seq<char>,
    other_id: Seq<char>,
    other_name: Seq<char>,
    arguments: Seq<char>,
    reason: Seq<char>,
    approval_id: Seq<char>,
    config_json: Seq<char>,
)
    ensures
        ({
            let started = run.on_delta(Some(DeltaView::ToolCallStart { call_id, tool_name })).run;
            let asked = started.on_delta(
                Some(
                    DeltaView::ToolCallComplete {
                        call_id: other_id,
                        tool_name: other_name,
                        arguments,
                    },
                ),
            );
            let allowed = asked.run.on_decision(Some(DecisionView::Proceed), config_json);
            let waits = asked.run.on_decision(
                Some(DecisionView::NeedsApproval { reason, approval_id }),
                config_json,
            );
            &&& asked.step matches StepView::Evaluate { call }
            &&& call.call_id == call_id
            &&& call.tool_name == tool_name
            &&& call.arguments == arguments
            &&& allowed.step is Next
            &&& allowed.effects.len() == 0
            &&& allowed.run.on_delta(None).step matches StepView::Execute { calls }
            &&& calls.len() == run.batch.len() + 1
            &&& forall|i: int| 0 <= i < run.batch.len() ==> #[trigger] calls[i] == run.batch[i]
            &&& calls.last().call_id == call_id
            &&& calls.last().tool_name == tool_name
            &&& calls.last().arguments == arguments
            &&& allowed.run.on_delta(Some(DeltaView::End)).step == allowed.run.on_delta(None).step
            &&& waits.step matches StepView::Done { result }
            &&& result matches ResultView::NeedsApproval {
                turn_id: t,
                call_id: c,
                tool_name: n,
                arguments: a,
                approval_id: p,
            }
            &&& t == run.turn_id
            &&& c == call_id
            &&& n == tool_name
            &&& a == arguments
            &&& p == approval_id
            &&& waits.effects.len() == 1
            &&& waits.effects[0] matches EffectView::Append { turn_id, entry }
            &&& turn_id == run.turn_id
            &&& entry matches EntryView::ApprovalPending {
                call_id: c2,
                approval_id: p2,
                tool_name: n2,
                arguments: a2,
                reason: r2,
                model,
                workspace,
                config_json: j2,
            }
            &&& c2 == call_id
            &&& p2 == approval_id
            &&& n2 == tool_name
            &&& a2 == arguments
            &&& r2 == reason
            &&& model == run.model
            &&& workspace == run.workspace
            &&& j2 == config_json
        }),
{
}

/// A complete tool call that no start came before is ignored.
pub proof fn law_call_without_start_is_ignored(run: RunView, arguments: Seq<char>)
    requires
        run.active is None,
    ensures
        run.on_call(arguments).run == run,
        run.on_call(arguments).effects.len() == 0,
        run.on_call(arguments).step is Next,
{
}

/// What the conversation keeps of a tool call is what was streamed of it: its id, its name,
/// and the pieces of its arguments, joined in their order and read as JSON. Pieces of
/// another call change nothing.
pub proof fn law_streamed_call_is_kept(
    run: RunView,
    call_id: Seq<char>,
    tool_name: Seq<char>,
    a: Seq<char>,
    b: Seq<char>,
    foreign: Seq<char>,
    other: Seq<char>,
    arguments: Seq<char>,
)
    requires
        other != call_id,
    ensures
        ({
            let s0 = run.on_delta(Some(DeltaView::ToolCallStart { call_id, tool_name })).run;
            let s1 = s0.on_delta(
                Some(DeltaView::ToolCallArgumentsDelta { call_id, delta: a }),
            ).run;
            let s2 = s1.on_delta(
                Some(DeltaView::ToolCallArgumentsDelta { call_id: other, delta: foreign }),
            ).run;
            let s3 = s2.on_delta(
                Some(DeltaView::ToolCallArgumentsDelta { call_id, delta: b }),
            ).run;
            let done = s3.on_call(arguments).run;
            &&& s2.active == s1.active
            &&& done.active is None
            &&& done.had_call
            &&& done.calls.len() == run.calls.len() + 1
            &&& done.calls.drop_last() == run.calls
            &&& done.calls.last().call_id == call_id
            &&& done.calls.last().tool_name == tool_name
            &&& match json::json_parse(a + b) {
                Some(t) => done.calls.last().arguments == t,
                None => done.calls.last().arguments == "null"@,
            }
            &&& done.called.len() == run.called.len() + 1
            &&& done.called.drop_last() == run.called
            &&& done.called.last().call_id == call_id
            &&& done.called.last().tool_name == tool_name
        }),
{
    let s0 = run.on_delta(Some(DeltaView::ToolCallStart { call_id, tool_name })).run;
    let s1 = s0.on_delta(Some(DeltaView::ToolCallArgumentsDelta { call_id, delta: a })).run;
    let s2 = s1.on_delta(
        Some(DeltaView::ToolCallArgumentsDelta { call_id: other, delta: foreign }),
    ).run;
    let s3 = s2.on_delta(Some(DeltaView::ToolCallArgumentsDelta { call_id, delta: b })).run;
    let done = s3.on_call(arguments).run;
    assert(s3.active->0.arguments =~= a + b);
    assert(done.calls.drop_last() =~= run.calls);
    assert(done.called.drop_last() =~= run.called);
}

/// A piece of text makes the answer longer by that text and changes nothing else; the
/// journal gets it under the message of the turn, and so does the transcript where one is
/// kept.
pub proof fn law_text_is_told(run: RunView, t: Seq<char>)
    ensures
        ({
            let r = run.on_delta(Some(DeltaView::Text(t)));
            let entry = EffectView::Append {
                turn_id: run.turn_id,
                entry: EntryView::AssistantDelta { message_id: run.message_id, delta: t },
            };
            &&& r.run == (RunView { answer: run.answer + t, ..run })
            &&& r.step is Next
            &&& r.effects.last() == entry
            &&& r.effects.len() == (if run.recording {
                2int
            } else {
                1
            })
            &&& run.recording ==> r.effects[0] == EffectView::Record(
                ItemView::AssistantDelta { delta: t },
            )
        }),
{
}

/// A piece of reasoning makes the reasoning of the round longer by that text; whether it has
/// to be sent back is settled by its first piece. The journal gets each piece.
pub proof fn law_reasoning_is_told(run: RunView, t: Seq<char>, replay_required: bool)
    ensures
        ({
            let r = run.on_delta(Some(DeltaView::Reasoning { delta: t, replay_required }));
            &&& run.reasoning matches Some(before) ==> r.run.reasoning == Some(
                ReasoningView {
                    content: before.content + t,
                    replay_required: before.replay_required,
                },
            )
            &&& run.reasoning is None ==> r.run.reasoning == Some(
                ReasoningView { content: t, replay_required },
            )
            &&& r.run == (RunView { reasoning: r.run.reasoning, ..run })
            &&& r.step is Next
            &&& r.effects == seq![
                EffectView::Append {
                    turn_id: run.turn_id,
                    entry: EntryView::ReasoningDelta {
                        message_id: run.message_id,
                        delta: t,
                        replay_required,
                    },
                },
            ]
        }),
{
}

/// The start of a tool call and each piece of its arguments reach the journal as they came.
pub proof fn law_streamed_call_is_told(
    run: RunView,
    call_id: Seq<char>,
    tool_name: Seq<char>,
    delta: Seq<char>,
)
    ensures
        ({
            let r = run.on_delta(Some(DeltaView::ToolCallStart { call_id, tool_name }));
            &&& r.step is Next
            &&& r.effects.len() == 2
            &&& forall|i: int|
                0 <= i < 2 ==> #[trigger] r.effects[i] == (EffectView::Append {
                    turn_id: run.turn_id,
                    entry: EntryView::ToolCallRequested { call_id, tool_name, arguments: "null"@ },
                })
            &&& r.run == (RunView { active: r.run.active, ..run })
        }),
        ({
            let r = run.on_delta(Some(DeltaView::ToolCallArgumentsDelta { call_id, delta }));
            &&& r.step is Next
            &&& r.effects == seq![
                EffectView::Append {
                    turn_id: run.turn_id,
                    entry: EntryView::ToolCallArgumentsDelta { call_id, delta },
                },
            ]
            &&& r.run == (RunView { active: r.run.active, ..run })
        }),
{
    let r = run.on_delta(Some(DeltaView::ToolCallStart { call_id, tool_name }));
    assert(r.effects.len() == 2);
}

/// Where a transcript is kept, a complete tool call is recorded in it with its id, its name
/// and the arguments that the model completed it with, behind the reasoning of the round;
/// and the journal gets the end of that reasoning.
pub proof fn law_call_is_recorded(run: RunView, arguments: Seq<char>)
    requires
        run.active is Some,
    ensures
        ({
            let c = run.active->0;
            let fx = run.on_call(arguments).effects;
            let call = EffectView::Record(
                ItemView::ToolCall { call_id: c.call_id, tool_name: c.tool_name, arguments },
            );
            &&& run.recording ==> fx.len() > 0 && fx.last() == call
            &&& run.recording && run.reasoning is Some ==> fx.len() == 3 && fx[0]
                == EffectView::Record(
                ItemView::ReasoningBlock {
                    content: run.reasoning->0.content,
                    replay_required: run.reasoning->0.replay_required,
                },
            )
            &&& run.recording && run.reasoning is None ==> fx.len() == 1
            &&& !run.recording && run.reasoning is Some ==> fx.len() == 1
            &&& !run.recording && run.reasoning is None ==> fx.len() == 0
            &&& run.reasoning is Some ==> fx[if run.recording {
                1
            } else {
                0
            }] == (EffectView::Append {
                turn_id: run.turn_id,
                entry: EntryView::ReasoningBlock {
                    message_id: run.message_id,
                    content: Seq::empty(),
                    replay_required: run.reasoning->0.replay_required,
                },
            })
        }),
{
}

/// A call that is forbidden, or that names no tool, is not run: the turn goes on, and the
/// journal says of that call why it failed.
pub proof fn law_refused_call_is_told(
    run: RunView,
    decision: Option<DecisionView>,
    config_json: Seq<char>,
)
    requires
        run.asking is Some,
        decision is None || decision->0 is Forbidden,
    ensures
        ({
            let r = run.on_decision(decision, config_json);
            let why = match decision {
                Some(DecisionView::Forbidden { reason }) => reason,
                _ => "unknown tool: "@ + run.asking->0.tool_name,
            };
            &&& r.step is Next
            &&& r.run == (RunView { asking: None, ..run })
            &&& r.effects == seq![
                EffectView::Append {
                    turn_id: run.turn_id,
                    entry: EntryView::ToolCallFailed { call_id: run.asking->0.call_id, error: why },
                },
            ]
        }),
{
}

/// The text that a tool returned: its body, or what a server gave; empty where there is none
/// or where the tool failed.
pub open spec fn returned_text(output: Result<OutputView, Seq<char>>) -> Seq<char> {
    match output {
        Ok(OutputView::Function { body: Some(b), .. }) => b,
        Ok(OutputView::Mcp { result }) => result,
        _ => Seq::empty(),
    }
}

/// The model is told what its tools returned: behind the conversation stands the message of
/// the assistant with its text, its reasoning and its calls, then for each result, in their
/// order, a message of the tool under the id of its call, with the text that it returned.
/// This conversation is what the next request sends, to the same model with the same tools.
pub proof fn law_results_are_fed_back(run: RunView, rs: Seq<CallResultView>)
    requires
        rs.len() > 0,
    ensures
        ({
            let r = run.on_results(rs);
            let said = r.run.transcript;
            let n = run.transcript.len() as int;
            &&& said.len() == n + 1 + rs.len()
            &&& forall|i: int| 0 <= i < n ==> #[trigger] said[i] == run.transcript[i]
            &&& said[n].role == MessageRole::Assistant
            &&& said[n].content == (if run.answer.len() == 0 {
                None
            } else {
                Some(run.answer)
            })
            &&& said[n].tool_calls == run.calls
            &&& said[n].tool_call_id is None
            &&& run.reasoning matches Some(x) ==> said[n].reasoning_content == Some(x.content)
            &&& run.reasoning is None ==> said[n].reasoning_content is None
            &&& forall|i: int|
                0 <= i < rs.len() ==> {
                    let m = #[trigger] said[n + 1 + i];
                    let t = returned_text(rs[i].output);
                    &&& m.role == MessageRole::Tool
                    &&& m.tool_call_id == Some(rs[i].call_id)
                    &&& m.tool_calls.len() == 0
                    &&& m.reasoning_content is None
                    &&& t.len() > 0 ==> m.content == Some(t)
                    &&& t.len() == 0 ==> m.content == Some("tool executed"@)
                }
            &&& r.run.calls.len() == 0
            &&& r.step matches StepView::Stream { request } ==> {
                &&& request.messages == said
                &&& request.model == run.model
                &&& request.tools == run.tools
                &&& request.max_output_tokens == run.max_output_tokens
                &&& request.system_prompt is None
                &&& run.reasoning is None ==> request.replay_reasoning is None
                &&& run.reasoning matches Some(x) ==> request.replay_reasoning is Some
                    && request.replay_reasoning->0.len() == 1
                    && request.replay_reasoning->0[0].message_id == run.message_id
                    && request.replay_reasoning->0[0].reasoning_content == x.content
            }
            &&& run.iteration < MAX_ITERATIONS ==> r.step is Stream
        }),
{
    let said = run.on_results(rs).run.transcript;
    let n = run.transcript.len() as int;
    assert forall|i: int| 0 <= i < rs.len() implies said[n + 1 + i] == result_message(rs[i]) by {}
}

/// Each result of a tool is told once more than those before it: it is recorded where a
/// transcript is kept, and the journal gets it twice, as hosts see it and with the name of
/// the tool, or, of a tool that failed, as a failure.
pub proof fn law_results_are_told(run: RunView, rs: Seq<CallResultView>, r: CallResultView)
    ensures
        run.results_effects(Seq::<CallResultView>::empty()).len() == 0,
        ({
            let t = returned_text(r.output);
            let success = match r.output {
                Ok(OutputView::Function { success, .. }) => success,
                Ok(OutputView::Mcp { .. }) => true,
                Err(_) => false,
            };
            let record = if run.recording {
                seq![
                    EffectView::Record(
                        ItemView::ToolResult {
                            call_id: r.call_id,
                            tool_name: r.tool_name,
                            output_preview: Some(t),
                            success,
                        },
                    ),
                ]
            } else {
                Seq::empty()
            };
            let seen = EffectView::Append {
                turn_id: run.turn_id,
                entry: EntryView::ToolCallCompleted {
                    call_id: r.call_id,
                    tool_name: Seq::empty(),
                    success,
                    output: Some(t),
                    output_preview: Some(t),
                },
            };
            let kept = EffectView::Append {
                turn_id: run.turn_id,
                entry: if success {
                    EntryView::ToolCallCompleted {
                        call_id: r.call_id,
                        tool_name: r.tool_name,
                        success: true,
                        output: Some(t),
                        output_preview: Some(t),
                    }
                } else {
                    EntryView::ToolCallFailed { call_id: r.call_id, error: t }
                },
            };
            run.results_effects(rs.push(r)) == run.results_effects(rs) + record + seq![seen, kept]
        }),
{
    let all = rs.push(r);
    assert(all.drop_last() =~= rs);
    let t = returned_text(r.output);
    let success = shown(r.output).0;
    assert(shown(r.output).1 =~= t);
    let record = if run.recording {
        seq![
            EffectView::Record(
                ItemView::ToolResult {
                    call_id: r.call_id,
                    tool_name: r.tool_name,
                    output_preview: Some(t),
                    success,
                },
            ),
        ]
    } else {
        Seq::empty()
    };
    let seen = EffectView::Append {
        turn_id: run.turn_id,
        entry: EntryView::ToolCallCompleted {
            call_id: r.call_id,
            tool_name: Seq::empty(),
            success,
            output: Some(t),
            output_preview: Some(t),
        },
    };
    let kept = EffectView::Append {
        turn_id: run.turn_id,
        entry: if success {
            EntryView::ToolCallCompleted {
                call_id: r.call_id,
                tool_name: r.tool_name,
                success: true,
                output: Some(t),
                output_preview: Some(t),
            }
        } else {
            EntryView::ToolCallFailed { call_id: r.call_id, error: t }
        },
    };
    assert(run.result_effects(r) =~= record + seq![seen, kept]);
    assert(run.results_effects(all) =~= run.results_effects(rs) + record + seq![seen, kept]);
}

/// What the results of a batch do comes before the next round.
pub proof fn law_results_are_told_first(run: RunView, rs: Seq<CallResultView>)
    requires
        rs.len() > 0,
    ensures
        run.results_effects(rs).is_prefix_of(run.on_results(rs).effects),
        run.iteration < MAX_ITERATIONS ==> run.on_results(rs).effects == run.results_effects(
            rs,
        ).push(EffectView::TraceInference),
{
    let fx = run.on_results(rs).effects;
    assert(fx.take(run.results_effects(rs).len() as int) =~= run.results_effects(rs));
    if run.iteration < MAX_ITERATIONS {
        assert(fx =~= run.results_effects(rs).push(EffectView::TraceInference));
    }
}

/// Where nothing is to be run, the end of a response ends the turn with the answer that the
/// model gave and the tools that it called, in their order. The journal gets the token
/// counts, and the end of the answer where there is one.
pub proof fn law_turn_ends_with_its_answer(run: RunView, delta: Option<DeltaView>)
    requires
        delta is None || delta->0 is End,
        !run.had_call || run.batch.len() == 0,
    ensures
        ({
            let r = run.on_delta(delta);
            &&& r.step matches StepView::Done { result }
            &&& result matches ResultView::Completed { turn_id, answer, tool_calls }
            &&& turn_id == run.turn_id
            &&& answer == run.answer
            &&& tool_calls.len() == run.called.len()
            &&& forall|i: int|
                0 <= i < tool_calls.len() ==> (#[trigger] tool_calls[i]).call_id
                    == run.called[i].call_id && tool_calls[i].tool_name == run.called[i].tool_name
            &&& r.run == run
            &&& r.effects[0] == (EffectView::Append {
                turn_id: run.turn_id,
                entry: EntryView::ProviderUsage {
                    prompt_tokens: prompt_estimate(run.transcript) as u64,
                    completion_tokens: (vstd::utf8::encode_utf8(run.answer).len() / 4) as u64,
                },
            })
            &&& r.effects[1] == EffectView::TraceTurnCompleted
            &&& run.answer.len() > 0 ==> r.effects.len() == 3 && r.effects[2]
                == (EffectView::Append {
                turn_id: run.turn_id,
                entry: EntryView::AssistantCompleted { message_id: run.message_id },
            })
            &&& run.answer.len() == 0 ==> r.effects.len() == 2
        }),
{
}

/// Where calls may run, the end of a response runs them all, once: the batch is handed out
/// and is empty afterwards. The journal gets the token counts, and each tool is traced.
pub proof fn law_batch_is_run_once(run: RunView, delta: Option<DeltaView>)
    requires
        delta is None || delta->0 is End,
        run.had_call && run.batch.len() > 0,
    ensures
        ({
            let r = run.on_delta(delta);
            &&& r.step matches StepView::Execute { calls }
            &&& calls == run.batch
            &&& r.run.batch.len() == 0
            &&& r.run == (RunView { batch: r.run.batch, ..run })
            &&& r.effects.len() == 1 + run.batch.len()
            &&& r.effects[0] == (EffectView::Append {
                turn_id: run.turn_id,
                entry: EntryView::ProviderUsage {
                    prompt_tokens: prompt_estimate(run.transcript) as u64,
                    completion_tokens: (vstd::utf8::encode_utf8(run.answer).len() / 4) as u64,
                },
            })
            &&& forall|i: int|
                0 <= i < run.batch.len() ==> #[trigger] r.effects[i + 1]
                    == (EffectView::TraceToolDispatch { tool_name: run.batch[i].tool_name })
        }),
{
}

/// The estimate of a prompt grows with each message by a quarter of the bytes of its text.
pub proof fn law_prompt_is_estimated_by_message(v: Seq<MessageView>, m: MessageView)
    ensures
        prompt_estimate(Seq::<MessageView>::empty()) == 0,
        m.content matches Some(t) ==> prompt_estimate(v.push(m)) == prompt_estimate(v)
            + vstd::utf8::encode_utf8(t).len() / 4,
        m.content is None ==> prompt_estimate(v.push(m)) == prompt_estimate(v),
{
    assert(v.push(m).drop_last() =~= v);
}

/// A turn without results ends with its answer, and the model is not asked again.
pub proof fn law_no_results_end_the_turn(run: RunView)
    ensures
        ({
            let r = run.on_results(Seq::empty());
            &&& r.step matches StepView::Done { result }
            &&& result matches ResultView::Completed { turn_id, answer, .. }
            &&& turn_id == run.turn_id
            &&& answer == run.answer
            &&& r.run == run
        }),
{
}

/// A round starts afresh: no call is under way, there is no reasoning yet, and no tool was
/// called; the answer, the calls that the turn has made and what it is about stay.
pub proof fn law_round_starts_afresh(run: RunView, request: RequestView)
    ensures
        ({
            let r = run.ask(request);
            &&& r.run.iteration == run.iteration + 1
            &&& r.run.active is None
            &&& r.run.reasoning is None
            &&& !r.run.had_call
            &&& r.run.answer == run.answer
            &&& r.run.called == run.called
            &&& r.run.turn_id == run.turn_id
            &&& r.run.thread_id == run.thread_id
            &&& r.run.message_id == run.message_id
            &&& r.run.transcript == run.transcript
            &&& run.iteration < MAX_ITERATIONS ==> r.step == (StepView::Stream { request })
                && r.effects == seq![EffectView::TraceInference]
            &&& run.iteration >= MAX_ITERATIONS ==> r.step is Done
        }),
{
}

/// The first request of a turn: to the model of the turn, with its tools and the reasoning
/// that has to be sent back. It begins with the system prompt, if there is one, tells the
/// model where it works, goes on with what was said before, and ends, in a new turn, with
/// the input of the user. The turn itself starts with no answer and no call.
pub proof fn law_first_request(
    request: RunTurnRequest,
    tools: Seq<ToolSpecView>,
    message_id: Seq<char>,
)
    ensures
        ({
            let r = on_start(request, tools, message_id);
            let config = request.config@;
            let history = model::messages(request.conversation_history@);
            let k = if config.system_prompt is Some {
                1int
            } else {
                0
            };
            &&& r.step matches StepView::Stream { request: q }
            &&& q.model == config.model
            &&& q.tools == tools
            &&& q.max_output_tokens == config.max_output_tokens
            &&& q.replay_reasoning == model::replays(request.reasoning_to_replay)
            &&& request.kind == TurnRequestKind::NewTurn ==> q.system_prompt == config.system_prompt
            &&& request.kind != TurnRequestKind::NewTurn ==> q.system_prompt is None
            &&& q.messages.len() == k + 1 + history.len() + (if request.kind
                == TurnRequestKind::NewTurn {
                1int
            } else {
                0
            })
            &&& config.system_prompt is Some ==> q.messages[0].role == MessageRole::System
                && q.messages[0].content == config.system_prompt && q.messages[0].tool_calls.len()
                == 0
            &&& q.messages[k].role == MessageRole::User
            &&& q.messages[k].content == Some(
                "<"@ + "environment"@ + ">\n"@ + ("workspace: "@ + config.workspace) + "\n</"@
                    + "environment"@ + ">"@,
            )
            &&& forall|i: int|
                0 <= i < history.len() ==> #[trigger] history[i] == q.messages[k + 1 + i]
            &&& request.kind == TurnRequestKind::NewTurn ==> q.messages.last().role
                == MessageRole::User && q.messages.last().content == Some(request.user_input@)
                && q.messages.last().tool_calls.len() == 0 && q.messages.last().tool_call_id is None
            &&& r.run.answer.len() == 0
            &&& r.run.called.len() == 0
            &&& r.run.calls.len() == 0
            &&& r.run.batch.len() == 0
            &&& r.run.asking is None
            &&& r.run.iteration == 1
            &&& r.run.turn_id == request.turn_id@
            &&& r.run.thread_id == request.thread_id@
            &&& r.run.message_id == message_id
            &&& r.run.model == config.model
            &&& r.run.workspace == config.workspace
            &&& r.run.tools == tools
            &&& r.run.max_output_tokens == config.max_output_tokens
            &&& r.run.recording == request.recording
            &&& request.recording ==> r.effects[0] == EffectView::Record(
                ItemView::UserMessage { content: request.user_input@ },
            )
            &&& r.effects.last() == EffectView::TraceInference
        }),
{
}

/// The failure of a turn says what failed, and why.
pub proof fn law_failures_say_why(m: Seq<char>)
    ensures
        TurnErrorView::ProviderError(m).text() == "provider error: "@ + m,
        TurnErrorView::UnknownTool(m).text() == "unknown tool: "@ + m,
        TurnErrorView::PolicyDenied(m).text() == "policy denied: "@ + m,
        TurnErrorView::SubagentError(m).text() == "sub-agent error: "@ + m,
        TurnErrorView::Timeout.text() == "turn timed out"@,
        TurnErrorView::Cancelled.text() == "turn cancelled"@,
{
}

/// The approval of a call is kept under its tool and its arguments, both by name, and under
/// nothing else.
pub proof fn law_approval_key_names_the_call(tool_name: Seq<char>, arguments: Seq<char>)
    ensures
        approval_key_text(tool_name, arguments) == json::json_object(
            seq![("tool_name"@, json::json_string(tool_name)), ("arguments"@, arguments)],
        ),
{
}

/// What is seen of a tool call state is all that it holds.
pub proof fn law_tool_call_state_is_seen_whole(t: ToolCallState)
    ensures
        t@.call_id == t.call_id@,
        t@.tool_name == t.tool_name@,
        t@.arguments == t.arguments@,
{
}

/// What is seen of a reasoning state is all that it holds.
pub proof fn law_reasoning_state_is_seen_whole(r: ReasoningState)
    ensures
        r@.content == r.content@,
        r@.replay_required == r.replay_required,
{
}

/// What is seen of a pending tool call is all that it holds.
pub proof fn law_pending_tool_call_is_seen_whole(p: PendingToolCall)
    ensures
        p@.call_id == p.call_id@,
        p@.tool_name == p.tool_name@,
        p@.arguments == json::json_text(p.arguments),
{
}

/// What is seen of a completed tool call is all that it holds.
pub proof fn law_completed_tool_call_is_seen_whole(c: CompletedToolCall)
    ensures
        c@.call_id == c.call_id@,
        c@.tool_name == c.tool_name@,
{
}

/// What is seen of a turn result is all that it holds.
pub proof fn law_turn_result_is_seen_whole(t: TurnResult)
    ensures
        t matches TurnResult::Completed { turn_id, answer, tool_calls } ==> t@ == (ResultView::Completed { turn_id: turn_id@, answer: answer@, tool_calls: tool_calls@.map_values(|v: CompletedToolCall| v@) }),
        t matches TurnResult::NeedsApproval { turn_id, call_id, tool_name, arguments, approval_id } ==> t@ == (ResultView::NeedsApproval { turn_id: turn_id@, call_id: call_id@, tool_name: tool_name@, arguments: json::json_text(arguments), approval_id: approval_id@ }),
{
}

/// What is seen of a tool decision is all that it holds.
pub proof fn law_tool_decision_is_seen_whole(t: ToolDecision)
    ensures
        t is Proceed ==> t@ is Proceed,
        t matches ToolDecision::NeedsApproval { reason, approval_id } ==> t@ == (DecisionView::NeedsApproval { reason: reason@, approval_id: approval_id@ }),
        t matches ToolDecision::Forbidden { reason } ==> t@ == (DecisionView::Forbidden { reason: reason@ }),
{
}

/// What is seen of a tool call result is all that it holds.
pub proof fn law_tool_call_result_is_seen_whole(t: ToolCallResult)
    ensures
        t@.call_id == t.call_id@,
        t@.tool_name == t.tool_name@,
        t@.output == (match t.output { Ok(o) => Ok(o@), Err(e) => Err(e@), }),
{
}

/// What is seen of a turn error is all that it holds.
pub proof fn law_turn_error_is_seen_whole(t: TurnError)
    ensures
        t matches TurnError::ProviderError(x) ==> t@ == (TurnErrorView::ProviderError(x@)),
        t is Timeout ==> t@ is Timeout,
        t matches TurnError::UnknownTool(x) ==> t@ == (TurnErrorView::UnknownTool(x@)),
        t matches TurnError::PolicyDenied(x) ==> t@ == (TurnErrorView::PolicyDenied(x@)),
        t is Cancelled ==> t@ is Cancelled,
        t matches TurnError::SubagentError(x) ==> t@ == (TurnErrorView::SubagentError(x@)),
{
}

/// What is seen of a turn step is all that it holds.
pub proof fn law_turn_step_is_seen_whole(t: TurnStep)
    ensures
        t matches TurnStep::Stream { request } ==> t@ == (StepView::Stream { request: request@ }),
        t is Next ==> t@ is Next,
        t matches TurnStep::Evaluate { call } ==> t@ == (StepView::Evaluate { call: call@ }),
        t matches TurnStep::Execute { calls } ==> t@ == (StepView::Execute { calls: calls@.map_values(|v: PendingToolCall| v@) }),
        t matches TurnStep::Done { result } ==> t@ == (StepView::Done { result: result@ }),
{
}

/// Besides the call itself nothing of a turn changes when a call is complete: neither the
/// answer, nor the reasoning of the round, nor the conversation, nor the calls that may run.
pub proof fn law_call_changes_nothing_else(run: RunView, arguments: Seq<char>)
    ensures
        ({
            let r = run.on_call(arguments).run;
            &&& r.thread_id == run.thread_id
            &&& r.turn_id == run.turn_id
            &&& r.message_id == run.message_id
            &&& r.model == run.model
            &&& r.workspace == run.workspace
            &&& r.max_output_tokens == run.max_output_tokens
            &&& r.tools == run.tools
            &&& r.recording == run.recording
            &&& r.transcript == run.transcript
            &&& r.answer == run.answer
            &&& r.iteration == run.iteration
            &&& r.batch == run.batch
            &&& r.reasoning == run.reasoning
        }),
{
}

/// A decision settles the call that was asked about and changes nothing else of a turn, but
/// that a call that may proceed joins those that may run. A decision that nothing was asked
/// for is ignored.
pub proof fn law_decision_changes_nothing_else(
    run: RunView,
    decision: Option<DecisionView>,
    config_json: Seq<char>,
)
    ensures
        ({
            let r = run.on_decision(decision, config_json);
            &&& r.run == (RunView { batch: r.run.batch, asking: None, ..run })
            &&& run.asking is None ==> r.run == run && r.effects.len() == 0 && r.step is Next
        }),
{
}

/// The results of tools change the conversation and begin a new round; what the turn is
/// about, its tools and its limits stay. The model is asked ten times at most.
pub proof fn law_results_keep_the_turn(run: RunView, rs: Seq<CallResultView>)
    ensures
        ({
            let r = run.on_results(rs).run;
            &&& r.thread_id == run.thread_id
            &&& r.turn_id == run.turn_id
            &&& r.message_id == run.message_id
            &&& r.model == run.model
            &&& r.workspace == run.workspace
            &&& r.max_output_tokens == run.max_output_tokens
            &&& r.tools == run.tools
            &&& r.recording == run.recording
            &&& r.answer == run.answer
            &&& r.called == run.called
            &&& r.batch == run.batch
            &&& r.asking == run.asking
        }),
        rs.len() > 0 && run.iteration < 10 ==> run.on_results(rs).step is Stream,
        run.iteration >= 10 ==> run.on_results(rs).step is Done,
{
}

/// What a turn holds is seen as it is, where it is there, and lists in their order.
pub proof fn law_parts_of_a_turn_are_seen(
    c: ToolCallState,
    r: ReasoningState,
    p: PendingToolCall,
    d: ModelDelta,
    t: ToolDecision,
    x: ReasoningView,
)
    ensures
        opt_state(Some(c)) == Some(c@),
        opt_state(None) is None,
        opt_reasoning(Some(r)) == Some(r@),
        opt_reasoning(None) is None,
        opt_pending(Some(p)) == Some(p@),
        opt_pending(None) is None,
        opt_delta(Some(d)) == Some(d@),
        opt_delta(None) is None,
        opt_decision(Some(t)) == Some(t@),
        opt_decision(None) is None,
        opt_content(Some(x)) == x.content,
        opt_content(None).len() == 0,
{
}

/// The lists of a turn are seen one by one, in their order.
pub proof fn law_lists_of_a_turn_are_seen(
    s: Seq<ToolCallState>,
    p: Seq<PendingToolCall>,
    c: Seq<ModelToolCall>,
    r: Seq<ToolCallResult>,
    i: int,
)
    ensures
        states(s).len() == s.len(),
        0 <= i < s.len() ==> states(s)[i] == s[i]@,
        pendings(p).len() == p.len(),
        0 <= i < p.len() ==> pendings(p)[i] == p[i]@,
        calls(c).len() == c.len(),
        0 <= i < c.len() ==> calls(c)[i] == c[i]@,
        results(r).len() == r.len(),
        0 <= i < r.len() ==> results(r)[i] == r[i]@,
{
}

} // verus!
