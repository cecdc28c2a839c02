//! Compilation of requests to a model: for a new turn, for a turn that goes on
//! after tool results, and for one that resumes after an approval.

use super::assembly::ContextFragment;
use super::compaction;
use crate::model;
use crate::model::{MessageRole, MessageView, ModelMessage, ModelRequest, ReasoningReplay, RequestView};
use crate::protocol::tool::{clone_specs, ToolSpec};
use crate::text;
use vstd::prelude::*;

verus! {

/// A request ready to be sent.
#[derive(Debug)]
pub struct CompiledRequest {
    pub request: ModelRequest,
    /// Whether the request goes on with a turn.
    pub has_tool_continuation: bool,
}

/// What a request is compiled from, besides the conversation.
#[derive(Debug)]
pub struct CompileConfig<'a> {
    pub system_prompt: Option<&'a str>,
    pub fragments: &'a [ContextFragment],
    pub tools: Vec<ToolSpec>,
    pub max_output_tokens: Option<u64>,
    pub model: &'a str,
    pub reasoning_to_replay: Option<Vec<ReasoningReplay>>,
}

/// The ways in which a request comes about.
#[derive(Debug, Clone, Copy, PartialEq, Eq, Structural)]
pub enum TurnRequestKind {
    NewTurn,
    ToolContinuation,
    ApprovalResume,
}

/// The compiler of requests.
#[derive(Debug)]
pub struct RequestCompiler;

/// The role that a conversation fragment names; an unknown one counts as the user.
pub open spec fn role_of(name: Seq<char>) -> MessageRole {
    if name == "assistant"@ {
        MessageRole::Assistant
    } else {
        MessageRole::User
    }
}

/// A text between an opening and a closing marker.
pub open spec fn marked(tag: Seq<char>, content: Seq<char>) -> Seq<char> {
    "<"@ + tag + ">\n"@ + content + "\n</"@ + tag + ">"@
}

/// The message that a fragment becomes. System prompts, tool results and reasoning
/// go another way and become none.
pub open spec fn fragment_message(f: ContextFragment) -> Option<MessageView> {
    match f {
        ContextFragment::ConversationMessage { role, content, .. } => Some(
            compaction::plain(role_of(role@), content@),
        ),
        _ => match f.marker() {
            Some(tag) => Some(
                compaction::plain(MessageRole::User, marked(tag, f.content())),
            ),
            None => None,
        },
    }
}

/// The messages that fragments become, in order.
pub open spec fn fragment_messages(v: Seq<ContextFragment>) -> Seq<MessageView>
    decreases v.len(),
{
    if v.len() == 0 {
        Seq::empty()
    } else {
        match fragment_message(v.last()) {
            Some(m) => fragment_messages(v.drop_last()).push(m),
            None => fragment_messages(v.drop_last()),
        }
    }
}

/// The text of an optional slice.
pub open spec fn opt_str(o: Option<&str>) -> Option<Seq<char>> {
    match o {
        Some(s) => Some(s@),
        None => None,
    }
}

impl<'a> CompileConfig<'a> {
    /// What stands before the conversation: the system prompt, then the fragments.
    pub open spec fn head(&self) -> Seq<MessageView> {
        let first = match self.system_prompt {
            Some(sys) => seq![compaction::plain(MessageRole::System, sys@)],
            None => Seq::empty(),
        };
        first + fragment_messages(self.fragments@)
    }

    /// The request for a new turn: head, history, and the input of the user.
    pub open spec fn new_turn(&self, history: Seq<MessageView>, user_input: Seq<char>) -> RequestView {
        RequestView {
            model: self.model@,
            messages: (self.head() + history).push(
                compaction::plain(MessageRole::User, user_input),
            ),
            tools: model::tools(self.tools@),
            max_output_tokens: self.max_output_tokens,
            system_prompt: opt_str(self.system_prompt),
            replay_reasoning: model::replays(self.reasoning_to_replay),
        }
    }

    /// The request that goes on with a transcript: head and transcript.
    pub open spec fn continuation(&self, transcript: Seq<MessageView>) -> RequestView {
        RequestView {
            model: self.model@,
            messages: self.head() + transcript,
            tools: model::tools(self.tools@),
            max_output_tokens: self.max_output_tokens,
            system_prompt: None,
            replay_reasoning: model::replays(self.reasoning_to_replay),
        }
    }

    /// The request after an approval: head, transcript, and the result of the tool.
    pub open spec fn resume(
        &self,
        transcript: Seq<MessageView>,
        result: Seq<char>,
        call_id: Seq<char>,
    ) -> RequestView {
        RequestView {
            model: self.model@,
            messages: (self.head() + transcript).push(tool_message(result, call_id)),
            tools: model::tools(self.tools@),
            max_output_tokens: None,
            system_prompt: None,
            replay_reasoning: model::replays(self.reasoning_to_replay),
        }
    }
}

/// The message that carries the result of a tool call.
pub open spec fn tool_message(content: Seq<char>, call_id: Seq<char>) -> MessageView {
    MessageView {
        role: MessageRole::Tool,
        content: Some(content),
        tool_calls: Seq::empty(),
        tool_call_id: Some(call_id),
        reasoning_content: None,
    }
}

/// The message that carries the result of a tool call.
pub fn tool_result_message(content: String, call_id: String) -> (r: ModelMessage)
    ensures
        r@ == tool_message(content@, call_id@),
{
    let r = ModelMessage {
        role: MessageRole::Tool,
        content: Some(content),
        tool_calls: Vec::new(),
        tool_call_id: Some(call_id),
        reasoning_content: None,
    };
    assert(r@.tool_calls =~= Seq::empty());
    r
}

fn marked_text(tag: &str, content: &str) -> (r: String)
    ensures
        r@ == marked(tag@, content@),
{
    let open = text::cat3("<", tag, ">\n");
    let close = text::cat3("\n</", tag, ">");
    let r = text::cat3(open.as_str(), content, close.as_str());
    assert(r@ =~= marked(tag@, content@));
    r
}

fn message_of_fragment(f: &ContextFragment) -> (r: Option<ModelMessage>)
    ensures
        (match r {
            Some(m) => Some(m@),
            None => None,
        }) == fragment_message(*f),
{
    match f {
        ContextFragment::ConversationMessage { role, content, .. } => {
            let who: MessageRole = if text::str_eq(role.as_str(), "assistant") {
                MessageRole::Assistant
            } else {
                MessageRole::User
            };
            Some(compaction::plain_message(who, content.clone()))
        },
        _ => match f.marker_tag() {
            Some(tag) => {
                let content: &String = match f {
                    ContextFragment::ToolSchemas { content } => content,
                    ContextFragment::SkillInstruction { content, .. } => content,
                    ContextFragment::PluginCapability { content, .. } => content,
                    ContextFragment::Environment { content } => content,
                    _ => {
                        return None;
                    },
                };
                Some(
                    compaction::plain_message(
                        MessageRole::User,
                        marked_text(tag, content.as_str()),
                    ),
                )
            },
            None => None,
        },
    }
}

impl RequestCompiler {
    fn head_messages(config: &CompileConfig<'_>) -> (r: Vec<ModelMessage>)
        ensures
            model::messages(r@) == config.head(),
    {
        let mut out: Vec<ModelMessage> = Vec::new();
        let ghost first = match config.system_prompt {
            Some(sys) => seq![compaction::plain(MessageRole::System, sys@)],
            None => Seq::empty(),
        };
        if let Some(sys) = config.system_prompt {
            out.push(compaction::plain_message(MessageRole::System, text::owned(sys)));
        }
        assert(model::messages(out@) =~= first);
        let ghost frags = config.fragments@;
        let mut i: usize = 0;
        assert(frags.take(0) =~= Seq::empty());
        assert(first + Seq::empty() =~= first);
        while i < config.fragments.len()
            invariant
                i <= config.fragments.len(),
                frags == config.fragments@,
                model::messages(out@) == first + fragment_messages(frags.take(i as int)),
            decreases config.fragments.len() - i,
        {
            assert(frags.take(i + 1).drop_last() =~= frags.take(i as int));
            match message_of_fragment(&config.fragments[i]) {
                Some(m) => {
                    let ghost prior = out@;
                    out.push(m);
                    assert(model::messages(out@) =~= model::messages(prior).push(m@));
                    assert(first + fragment_messages(frags.take(i as int)).push(m@) =~= (first
                        + fragment_messages(frags.take(i as int))).push(m@));
                },
                None => {},
            }
            i = i + 1;
        }
        assert(frags.take(i as int) =~= frags);
        out
    }

    /// Compiles a request of a kind. An approval resume goes on with a transcript
    /// that already holds the result.
    pub fn compile(
        kind: TurnRequestKind,
        config: &CompileConfig<'_>,
        history_or_transcript: &[ModelMessage],
        user_input: &str,
    ) -> (r: CompiledRequest)
        ensures
            match kind {
                TurnRequestKind::NewTurn => r.request@ == config.new_turn(
                    model::messages(history_or_transcript@),
                    user_input@,
                ) && !r.has_tool_continuation,
                _ => r.request@ == config.continuation(model::messages(history_or_transcript@))
                    && r.has_tool_continuation,
            },
    {
        match kind {
            TurnRequestKind::NewTurn => Self::compile_new_turn(
                config,
                history_or_transcript,
                user_input,
            ),
            TurnRequestKind::ToolContinuation => Self::compile_tool_continuation(
                config,
                history_or_transcript,
            ),
            TurnRequestKind::ApprovalResume => Self::compile_tool_continuation(
                config,
                history_or_transcript,
            ),
        }
    }

    pub fn compile_new_turn(
        config: &CompileConfig<'_>,
        history: &[ModelMessage],
        user_input: &str,
    ) -> (r: CompiledRequest)
        ensures
            r.request@ == config.new_turn(model::messages(history@), user_input@),
            !r.has_tool_continuation,
    {
        let mut out = Self::head_messages(config);
        compaction::append_copies(&mut out, history);
        let ghost prior = out@;
        let m = compaction::plain_message(MessageRole::User, text::owned(user_input));
        out.push(m);
        assert(model::messages(out@) =~= model::messages(prior).push(m@));
        CompiledRequest {
            request: ModelRequest {
                model: text::owned(config.model),
                messages: out,
                tools: clone_specs(&config.tools),
                max_output_tokens: config.max_output_tokens,
                system_prompt: match config.system_prompt {
                    Some(s) => Some(text::owned(s)),
                    None => None,
                },
                replay_reasoning: model::clone_opt_replays(&config.reasoning_to_replay),
            },
            has_tool_continuation: false,
        }
    }

    pub fn compile_tool_continuation(config: &CompileConfig<'_>, transcript: &[ModelMessage]) -> (r:
        CompiledRequest)
        ensures
            r.request@ == config.continuation(model::messages(transcript@)),
            r.has_tool_continuation,
    {
        let mut out = Self::head_messages(config);
        compaction::append_copies(&mut out, transcript);
        CompiledRequest {
            request: ModelRequest {
                model: text::owned(config.model),
                messages: out,
                tools: clone_specs(&config.tools),
                max_output_tokens: config.max_output_tokens,
                system_prompt: None,
                replay_reasoning: model::clone_opt_replays(&config.reasoning_to_replay),
            },
            has_tool_continuation: true,
        }
    }

    pub fn compile_approval_resume(
        config: &CompileConfig<'_>,
        journal_transcript: &[ModelMessage],
        tool_result_content: &str,
        call_id: &str,
    ) -> (r: CompiledRequest)
        ensures
            r.request@ == config.resume(
                model::messages(journal_transcript@),
                tool_result_content@,
                call_id@,
            ),
            r.has_tool_continuation,
    {
        let mut out = Self::head_messages(config);
        compaction::append_copies(&mut out, journal_transcript);
        let ghost prior = out@;
        let m = tool_result_message(text::owned(tool_result_content), text::owned(call_id));
        out.push(m);
        assert(model::messages(out@) =~= model::messages(prior).push(m@));
        CompiledRequest {
            request: ModelRequest {
                model: text::owned(config.model),
                messages: out,
                tools: clone_specs(&config.tools),
                max_output_tokens: None,
                system_prompt: None,
                replay_reasoning: model::clone_opt_replays(&config.reasoning_to_replay),
            },
            has_tool_continuation: true,
        }
    }
}

/// A new turn ends with the input of the user; a continuation ends as its transcript
/// does, so no message of the user is made up; a resumed turn ends with the result.
pub proof fn law_last_message(
    config: CompileConfig<'_>,
    history: Seq<MessageView>,
    user_input: Seq<char>,
    result: Seq<char>,
    call_id: Seq<char>,
)
    ensures
        config.new_turn(history, user_input).messages.last() == compaction::plain(
            MessageRole::User,
            user_input,
        ),
        history.len() > 0 ==> config.continuation(history).messages.last() == history.last(),
        config.resume(history, result, call_id).messages.last() == tool_message(result, call_id),
{
}

/// The three ways differ only behind the history: what stands before it, and the
/// history itself, are the same in all of them.
pub proof fn law_same_front(
    config: CompileConfig<'_>,
    history: Seq<MessageView>,
    user_input: Seq<char>,
    result: Seq<char>,
    call_id: Seq<char>,
)
    ensures
        config.new_turn(history, user_input).messages.drop_last() == config.continuation(
            history,
        ).messages,
        config.resume(history, result, call_id).messages.drop_last() == config.continuation(
            history,
        ).messages,
{
    let front = config.head() + history;
    assert(front.push(compaction::plain(MessageRole::User, user_input)).drop_last() =~= front);
    assert(front.push(tool_message(result, call_id)).drop_last() =~= front);
}

/// The message of a tool result says the result, under the id of its call.
pub proof fn law_tool_message_says_the_result(content: Seq<char>, call_id: Seq<char>)
    ensures
        tool_message(content, call_id).role == MessageRole::Tool,
        tool_message(content, call_id).content == Some(content),
        tool_message(content, call_id).tool_call_id == Some(call_id),
        tool_message(content, call_id).tool_calls.len() == 0,
        tool_message(content, call_id).reasoning_content is None,
{
}

/// What a fragment becomes: a message of the conversation is sent in its own role with its
/// own text; schemas, skills, plugins and the environment are sent as messages of the user,
/// with their text between markers that name what they are; the system prompt, tool results
/// and reasoning become no message here.
pub proof fn law_fragments_become_messages(f: ContextFragment)
    ensures
        ({
            let between = |tag: Seq<char>, content: Seq<char>|
                "<"@ + tag + ">\n"@ + content + "\n</"@ + tag + ">"@;
            match f {
                ContextFragment::ConversationMessage { role, content, .. } => {
                    &&& fragment_message(f) matches Some(m)
                    &&& m.content == Some(content@)
                    &&& role@ == "assistant"@ ==> m.role == MessageRole::Assistant
                    &&& role@ != "assistant"@ ==> m.role == MessageRole::User
                    &&& m.tool_calls.len() == 0
                    &&& m.tool_call_id is None
                },
                ContextFragment::ToolSchemas { content } => {
                    &&& fragment_message(f) matches Some(m)
                    &&& m.role == MessageRole::User
                    &&& m.content == Some(between("tool-schemas"@, content@))
                },
                ContextFragment::SkillInstruction { content, .. } => {
                    &&& fragment_message(f) matches Some(m)
                    &&& m.role == MessageRole::User
                    &&& m.content == Some(between("skill-instruction"@, content@))
                },
                ContextFragment::PluginCapability { content, .. } => {
                    &&& fragment_message(f) matches Some(m)
                    &&& m.role == MessageRole::User
                    &&& m.content == Some(between("plugin-capability"@, content@))
                },
                ContextFragment::Environment { content } => {
                    &&& fragment_message(f) matches Some(m)
                    &&& m.role == MessageRole::User
                    &&& m.content == Some(between("environment"@, content@))
                },
                _ => fragment_message(f) is None,
            }
        }),
{
}

/// Fragments become messages in their order: one more adds its message, if it has one, at
/// the end.
pub proof fn law_fragments_keep_their_order(v: Seq<ContextFragment>, f: ContextFragment)
    ensures
        fragment_messages(Seq::<ContextFragment>::empty()).len() == 0,
        fragment_message(f) matches Some(m) ==> fragment_messages(v.push(f)) == fragment_messages(
            v,
        ).push(m),
        fragment_message(f) is None ==> fragment_messages(v.push(f)) == fragment_messages(v),
{
    assert(v.push(f).drop_last() =~= v);
}

/// What a request holds: the system prompt first, if there is one, then the fragments, then
/// the conversation, whole and in its order, and at the end what the kind of request adds.
/// It goes to the model of the configuration, with its tools, its limit and its reasoning.
pub proof fn law_request_holds_the_conversation(
    config: CompileConfig<'_>,
    history: Seq<MessageView>,
    user_input: Seq<char>,
    result: Seq<char>,
    call_id: Seq<char>,
)
    ensures
        ({
            let a = config.new_turn(history, user_input);
            let b = config.continuation(history);
            let c = config.resume(history, result, call_id);
            let k = if config.system_prompt is Some {
                1int
            } else {
                0
            };
            let frags = fragment_messages(config.fragments@);
            let n = k + frags.len();
            &&& b.messages.len() == n + history.len()
            &&& a.messages.len() == b.messages.len() + 1
            &&& c.messages.len() == b.messages.len() + 1
            &&& config.system_prompt matches Some(s) ==> b.messages[0].role == MessageRole::System
                && b.messages[0].content == Some(s@) && b.messages[0].tool_calls.len() == 0
            &&& forall|i: int| 0 <= i < frags.len() ==> #[trigger] frags[i] == b.messages[k + i]
            &&& forall|i: int|
                0 <= i < history.len() ==> #[trigger] history[i] == b.messages[n + i]
            &&& a.messages.last().role == MessageRole::User
            &&& a.messages.last().content == Some(user_input)
            &&& c.messages.last().role == MessageRole::Tool
            &&& c.messages.last().content == Some(result)
            &&& c.messages.last().tool_call_id == Some(call_id)
            &&& a.model == config.model@ && b.model == config.model@ && c.model == config.model@
            &&& a.tools == model::tools(config.tools@) && b.tools == a.tools && c.tools == a.tools
            &&& a.max_output_tokens == config.max_output_tokens
            &&& b.max_output_tokens == config.max_output_tokens
            &&& c.max_output_tokens is None
            &&& config.system_prompt matches Some(s) ==> a.system_prompt == Some(s@)
            &&& config.system_prompt is None ==> a.system_prompt is None
            &&& b.system_prompt is None && c.system_prompt is None
            &&& a.replay_reasoning == model::replays(config.reasoning_to_replay)
            &&& b.replay_reasoning == a.replay_reasoning
            &&& c.replay_reasoning == a.replay_reasoning
        }),
{
    let b = config.continuation(history);
    let k = if config.system_prompt is Some {
        1int
    } else {
        0
    };
    let frags = fragment_messages(config.fragments@);
    assert forall|i: int| 0 <= i < frags.len() implies #[trigger] frags[i] == b.messages[k
        + i] by {}
}

} // verus!
