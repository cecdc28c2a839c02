//! What a turn is run with.

use crate::context::budget::TokenBudget;
use crate::context::manager::{ContextManager, ContextView};
use crate::context::request_compiler::TurnRequestKind;
use crate::model;
use crate::model::{ModelMessage, ReasoningReplay};
use crate::policy::{AgentMode, PermissionProfile};
use crate::protocol::id::{ThreadId, ToolCallId, TurnId};
use crate::protocol::tool::ToolSpec;
use crate::protocol::turn::TurnItem;
use crate::text;
use serde_json::Value;
use vstd::prelude::*;

verus! {

/// How long a turn may take: seconds, and the nanoseconds beyond them.
#[derive(Debug, Clone, Copy, PartialEq, Eq, Structural)]
pub struct TurnTimeout {
    pub secs: u64,
    pub nanos: u32,
}

/// The settings of a turn.
#[derive(Debug)]
pub struct TurnConfig {
    pub model: String,
    pub max_output_tokens: Option<u64>,
    pub token_budget: u64,
    pub turn_timeout: Option<TurnTimeout>,
    pub agent_mode: AgentMode,
    pub system_prompt: Option<String>,
    pub workspace: String,
}

/// The settings of a turn, over plain texts.
pub struct ConfigView {
    pub model: Seq<char>,
    pub max_output_tokens: Option<u64>,
    pub token_budget: u64,
    pub turn_timeout: Option<TurnTimeout>,
    pub agent_mode: AgentMode,
    pub system_prompt: Option<Seq<char>>,
    pub workspace: Seq<char>,
}

impl View for TurnConfig {
    type V = ConfigView;

    open spec fn view(&self) -> ConfigView {
        ConfigView {
            model: self.model@,
            max_output_tokens: self.max_output_tokens,
            token_budget: self.token_budget,
            turn_timeout: self.turn_timeout,
            agent_mode: self.agent_mode,
            system_prompt: text::opt_text(self.system_prompt),
            workspace: self.workspace@,
        }
    }
}

impl Clone for TurnConfig {
    fn clone(&self) -> (r: Self)
        ensures
            r@ == self@,
    {
        TurnConfig {
            model: self.model.clone(),
            max_output_tokens: self.max_output_tokens,
            token_budget: self.token_budget,
            turn_timeout: self.turn_timeout,
            agent_mode: self.agent_mode,
            system_prompt: text::clone_opt(&self.system_prompt),
            workspace: self.workspace.clone(),
        }
    }
}

/// The fixed surroundings of a turn, and the transcript items it has recorded.
#[derive(Debug)]
pub struct TurnExecutionContext {
    pub config: TurnConfig,
    pub thread_id: ThreadId,
    pub turn_id: TurnId,
    pub user_input: String,
    pub tool_specs: Vec<ToolSpec>,
    /// Where items go, if anything takes them.
    pub item_sink: Option<Vec<TurnItem>>,
}

impl TurnExecutionContext {
    pub fn workspace(&self) -> (r: &str)
        ensures
            r@ == self.config.workspace@,
    {
        self.config.workspace.as_str()
    }

    pub fn model(&self) -> (r: &str)
        ensures
            r@ == self.config.model@,
    {
        self.config.model.as_str()
    }

    /// Hands an item to the sink; without a sink it is dropped.
    pub fn record(&mut self, item: TurnItem)
        ensures
            final(self).config == old(self).config,
            final(self).thread_id == old(self).thread_id,
            final(self).turn_id == old(self).turn_id,
            final(self).user_input == old(self).user_input,
            final(self).tool_specs == old(self).tool_specs,
            match old(self).item_sink {
                Some(items) => final(self).item_sink matches Some(now) && now@ == items@.push(item),
                None => final(self).item_sink is None,
            },
    {
        if let Some(items) = self.item_sink.take() {
            let mut items = items;
            items.push(item);
            self.item_sink = Some(items);
        }
    }
}

/// A request to run a turn. A new turn sends the input of the user behind the history;
/// a turn that goes on sends the history alone.
#[derive(Debug)]
pub struct RunTurnRequest {
    pub kind: TurnRequestKind,
    pub thread_id: ThreadId,
    pub turn_id: TurnId,
    pub user_input: String,
    pub config: TurnConfig,
    pub conversation_history: Vec<ModelMessage>,
    pub reasoning_to_replay: Option<Vec<ReasoningReplay>>,
    /// Whether decisions on tools may be taken from earlier approvals.
    pub use_approval_store: bool,
    /// Whether transcript items are recorded.
    pub recording: bool,
}

/// A request to go on with a turn after a tool was approved.
#[derive(Debug)]
pub struct ResumeTurnRequest {
    pub thread_id: ThreadId,
    pub turn_id: TurnId,
    pub call_id: ToolCallId,
    pub tool_name: String,
    pub arguments: Value,
    pub config: TurnConfig,
    pub tool_result_content: String,
    pub transcript: Vec<ModelMessage>,
    pub reasoning_to_replay: Option<Vec<ReasoningReplay>>,
    pub recording: bool,
}

/// Everything that a turn sees, frozen at its start.
#[derive(Debug)]
pub struct TurnContext {
    pub config: TurnConfig,
    pub thread_id: ThreadId,
    pub turn_id: TurnId,
    pub user_input: String,
    pub tool_specs: Vec<ToolSpec>,
    pub approval_policy: AgentMode,
    pub permission_profile: PermissionProfile,
    pub cwd: String,
    pub environment_vars: Vec<(String, String)>,
    pub token_budget: TokenBudget,
    pub context_manager: ContextManager,
    pub reasoning_to_replay: Option<Vec<ReasoningReplay>>,
}

impl TurnContext {
    /// The context of a turn: the mode of its settings is its approval policy, its
    /// workspace the working directory, and its history goes to a context manager.
    pub fn from_run_request(
        request: RunTurnRequest,
        tool_specs: Vec<ToolSpec>,
        permission_profile: PermissionProfile,
        environment_vars: Vec<(String, String)>,
    ) -> (r: Self)
        requires
            request.config.token_budget * 65 <= u64::MAX,
        ensures
            r.config == request.config,
            r.thread_id == request.thread_id,
            r.turn_id == request.turn_id,
            r.user_input == request.user_input,
            r.tool_specs == tool_specs,
            r.approval_policy == request.config.agent_mode,
            r.permission_profile == permission_profile,
            r.cwd@ == request.config.workspace@,
            r.environment_vars == environment_vars,
            r.token_budget == TokenBudget::of(request.config.token_budget),
            r.context_manager@ == ContextView::start(
                model::messages(request.conversation_history@),
            ),
            r.reasoning_to_replay == request.reasoning_to_replay,
    {
        let cwd = request.config.workspace.clone();
        let token_budget = TokenBudget::new(request.config.token_budget);
        let context_manager = ContextManager::from_items(request.conversation_history);
        TurnContext {
            approval_policy: request.config.agent_mode,
            config: request.config,
            thread_id: request.thread_id,
            turn_id: request.turn_id,
            user_input: request.user_input,
            tool_specs,
            permission_profile,
            cwd,
            environment_vars,
            token_budget,
            context_manager,
            reasoning_to_replay: request.reasoning_to_replay,
        }
    }

    /// The history as it goes into a prompt.
    pub fn prompt_history(&self) -> (r: Vec<ModelMessage>)
        ensures
            model::messages(r@) == crate::context::normalize::normalized(self.context_manager@.items),
    {
        self.context_manager.for_prompt()
    }
}

/// What is seen of a turn config is all that it holds.
pub proof fn law_turn_config_is_seen_whole(t: TurnConfig)
    ensures
        t@.model == t.model@,
        t@.max_output_tokens == t.max_output_tokens,
        t@.token_budget == t.token_budget,
        t@.turn_timeout == t.turn_timeout,
        t@.agent_mode == t.agent_mode,
        t@.system_prompt == text::opt_text(t.system_prompt),
        t@.workspace == t.workspace@,
{
}

} // verus!
