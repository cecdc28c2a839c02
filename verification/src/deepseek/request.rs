//! Requests in the wire format of chat completions.

use super::models;
use super::models::should_replay_reasoning;
use crate::json;
use crate::model;
use crate::model::{
    CallView, MessageRole, MessageView, ModelMessage, ModelProviderError, ModelRequest,
    ModelToolCall, ReasoningReplay, ReplayView, RequestView,
};
use crate::protocol::tool::{ToolSpec, ToolSpecView};
use crate::text;
use serde_json::Value;
use vstd::prelude::*;

verus! {

/// A tool call in a message.
#[derive(Debug)]
pub struct ChatToolCall {
    pub id: String,
    pub call_type: String,
    /// The name of the function.
    pub name: String,
    pub arguments: String,
}

/// A tool call in a message, over plain texts.
pub struct ChatCallView {
    pub id: Seq<char>,
    pub call_type: Seq<char>,
    pub name: Seq<char>,
    pub arguments: Seq<char>,
}

impl View for ChatToolCall {
    type V = ChatCallView;

    open spec fn view(&self) -> ChatCallView {
        ChatCallView {
            id: self.id@,
            call_type: self.call_type@,
            name: self.name@,
            arguments: self.arguments@,
        }
    }
}

/// A message of a conversation.
#[derive(Debug)]
pub struct ChatMessage {
    pub role: String,
    pub content: Option<String>,
    pub tool_calls: Option<Vec<ChatToolCall>>,
    pub tool_call_id: Option<String>,
    pub reasoning_content: Option<String>,
}

/// A message of a conversation, over plain texts.
pub struct ChatView {
    pub role: Seq<char>,
    pub content: Option<Seq<char>>,
    pub tool_calls: Option<Seq<ChatCallView>>,
    pub tool_call_id: Option<Seq<char>>,
    pub reasoning_content: Option<Seq<char>>,
}

impl View for ChatMessage {
    type V = ChatView;

    open spec fn view(&self) -> ChatView {
        ChatView {
            role: self.role@,
            content: text::opt_text(self.content),
            tool_calls: match self.tool_calls {
                Some(v) => Some(v@.map_values(|c: ChatToolCall| c@)),
                None => None,
            },
            tool_call_id: text::opt_text(self.tool_call_id),
            reasoning_content: text::opt_text(self.reasoning_content),
        }
    }
}

/// A tool that the model may call.
#[derive(Debug)]
pub struct ChatTool {
    pub tool_type: String,
    pub name: String,
    pub description: String,
    pub parameters: Value,
}

/// A tool that the model may call, over plain texts.
pub struct ChatToolView {
    pub tool_type: Seq<char>,
    pub name: Seq<char>,
    pub description: Seq<char>,
    pub parameters: Seq<char>,
}

impl View for ChatTool {
    type V = ChatToolView;

    open spec fn view(&self) -> ChatToolView {
        ChatToolView {
            tool_type: self.tool_type@,
            name: self.name@,
            description: self.description@,
            parameters: json::json_text(self.parameters),
        }
    }
}

/// The body of a request. It asks for a stream that tells the token counts at its end.
#[derive(Debug)]
pub struct ChatCompletionRequest {
    pub model: String,
    pub messages: Vec<ChatMessage>,
    pub tools: Option<Vec<ChatTool>>,
    pub max_tokens: Option<u64>,
    pub stream: bool,
    pub include_usage: bool,
}

/// The messages of a list, over plain texts.
pub open spec fn chats(v: Seq<ChatMessage>) -> Seq<ChatView> {
    v.map_values(|m: ChatMessage| m@)
}

/// The tools of a list, over plain texts.
pub open spec fn chat_tools(v: Seq<ChatTool>) -> Seq<ChatToolView> {
    v.map_values(|t: ChatTool| t@)
}

pub open spec fn role_name(role: MessageRole) -> Seq<char> {
    match role {
        MessageRole::System => "system"@,
        MessageRole::User => "user"@,
        MessageRole::Assistant => "assistant"@,
        MessageRole::Tool => "tool"@,
    }
}

/// The name of a role on the wire.
pub fn role_to_str(role: MessageRole) -> (r: &'static str)
    ensures
        r@ == role_name(role),
{
    match role {
        MessageRole::System => "system",
        MessageRole::User => "user",
        MessageRole::Assistant => "assistant",
        MessageRole::Tool => "tool",
    }
}

/// A tool call on the wire; its arguments are the text of a JSON document.
pub open spec fn wire_call(c: CallView) -> ChatCallView {
    ChatCallView {
        id: c.call_id,
        call_type: "function"@,
        name: c.tool_name,
        arguments: c.arguments,
    }
}

/// Whether a message wants reasoning of a replay: it calls tools and has none of its own.
pub open spec fn wants_replay(m: MessageView) -> bool {
    m.role is Assistant && m.tool_calls.len() > 0 && m.reasoning_content is None
}

/// How many replays the messages of a conversation take.
pub open spec fn taken(v: Seq<MessageView>, available: nat) -> nat
    decreases v.len(),
{
    if v.len() == 0 {
        0
    } else {
        let before = taken(v.drop_last(), available);
        if wants_replay(v.last()) && before < available {
            before + 1
        } else {
            before
        }
    }
}

/// A message on the wire, with the reasoning that is replayed at it, if any.
pub open spec fn wire_message(m: MessageView, replay: Option<Seq<char>>) -> ChatView {
    ChatView {
        role: role_name(m.role),
        content: m.content,
        tool_calls: if m.tool_calls.len() > 0 {
            Some(m.tool_calls.map_values(|c: CallView| wire_call(c)))
        } else {
            None
        },
        tool_call_id: m.tool_call_id,
        reasoning_content: if replay is Some {
            replay
        } else {
            m.reasoning_content
        },
    }
}

/// The reasoning that is replayed at the message at a place: the first that no earlier
/// message took.
pub open spec fn replay_at(v: Seq<MessageView>, replays: Seq<ReplayView>, i: int) -> Option<
    Seq<char>,
> {
    let n = taken(v.take(i), replays.len());
    if wants_replay(v[i]) && n < replays.len() {
        Some(replays[n as int].reasoning_content)
    } else {
        None
    }
}

/// A conversation on the wire.
pub open spec fn wire_messages(v: Seq<MessageView>, replays: Seq<ReplayView>) -> Seq<ChatView> {
    Seq::new(v.len(), |i: int| wire_message(v[i], replay_at(v, replays, i)))
}

/// The message that holds a system prompt.
pub open spec fn system_chat(prompt: Seq<char>) -> ChatView {
    ChatView {
        role: "system"@,
        content: Some(prompt),
        tool_calls: None,
        tool_call_id: None,
        reasoning_content: None,
    }
}

/// All replays of a request.
pub open spec fn all_replays(r: RequestView) -> Seq<ReplayView> {
    match r.replay_reasoning {
        Some(v) => v,
        None => Seq::empty(),
    }
}

/// The messages that a request sends: the system prompt, then the conversation.
pub open spec fn request_messages(r: RequestView) -> Seq<ChatView> {
    let rest = wire_messages(r.messages, all_replays(r));
    match r.system_prompt {
        Some(p) => seq![system_chat(p)] + rest,
        None => rest,
    }
}

/// Whether a message lacks the reasoning that a reasoning model wants back.
pub open spec fn lacks_reasoning(m: ChatView) -> bool {
    m.role == "assistant"@ && m.tool_calls is Some && m.reasoning_content is None
}

/// Whether a request can be sent: to a reasoning model, no message may lack its reasoning.
pub open spec fn sendable(r: RequestView) -> bool {
    models::reasons(text::lowercase(r.model)) ==> forall|i: int|
        0 <= i < request_messages(r).len() ==> !lacks_reasoning(#[trigger] request_messages(r)[i])
}

/// What is said where reasoning is missing.
pub open spec fn missing_reasoning() -> Seq<char> {
    "reasoning replay required for assistant tool-call messages but missing"@
}

fn wire_calls(v: &Vec<ModelToolCall>) -> (r: Option<Vec<ChatToolCall>>)
    ensures
        (match r {
            Some(c) => Some(c@.map_values(|x: ChatToolCall| x@)),
            None => None,
        }) == (if v@.len() > 0 {
            Some(
                v@.map_values(|c: ModelToolCall| c@).map_values(|c: CallView| wire_call(c)),
            )
        } else {
            None
        }),
{
    if v.len() == 0 {
        return None;
    }
    let mut out: Vec<ChatToolCall> = Vec::new();
    let mut i: usize = 0;
    while i < v.len()
        invariant
            i <= v.len(),
            out.len() == i,
            forall|j: int| 0 <= j < i ==> (#[trigger] out@[j])@ == wire_call(v@[j]@),
        decreases v.len() - i,
    {
        out.push(
            ChatToolCall {
                id: v[i].call_id.clone(),
                call_type: text::owned("function"),
                name: v[i].tool_name.clone(),
                arguments: json::render(&v[i].arguments),
            },
        );
        i = i + 1;
    }
    assert(out@.map_values(|x: ChatToolCall| x@) =~= v@.map_values(
        |c: ModelToolCall| c@,
    ).map_values(|c: CallView| wire_call(c)));
    Some(out)
}

fn wire_one(m: &ModelMessage, replay: Option<String>) -> (r: ChatMessage)
    ensures
        r@ == wire_message(m@, text::opt_text(replay)),
{
    let reasoning_content = match replay {
        Some(s) => Some(s),
        None => text::clone_opt(&m.reasoning_content),
    };
    ChatMessage {
        role: text::owned(role_to_str(m.role)),
        content: text::clone_opt(&m.content),
        tool_calls: wire_calls(&m.tool_calls),
        tool_call_id: text::clone_opt(&m.tool_call_id),
        reasoning_content,
    }
}

fn wire_conversation(v: &Vec<ModelMessage>, replays: &Vec<ReasoningReplay>, out: &mut Vec<ChatMessage>)
    ensures
        chats(final(out)@) == chats(old(out)@) + wire_messages(
            model::messages(v@),
            replays@.map_values(|x: ReasoningReplay| x@),
        ),
{
    let ghost all = model::messages(v@);
    let ghost reps = replays@.map_values(|x: ReasoningReplay| x@);
    let ghost wires = wire_messages(all, reps);
    let ghost start = chats(out@);
    let mut used: usize = 0;
    let mut i: usize = 0;
    assert(all.take(0) =~= Seq::empty());
    assert(start + wires.take(0) =~= start);
    while i < v.len()
        invariant
            i <= v.len(),
            all == model::messages(v@),
            reps == replays@.map_values(|x: ReasoningReplay| x@),
            wires == wire_messages(all, reps),
            used == taken(all.take(i as int), reps.len()),
            used <= replays.len(),
            chats(out@) == start + wires.take(i as int),
        decreases v.len() - i,
    {
        assert(all.take(i + 1).drop_last() =~= all.take(i as int));
        assert(all.take(i + 1).last() == v@[i as int]@);
        assert(all[i as int] == v@[i as int]@);
        let m = &v[i];
        let is_assistant: bool = match m.role {
            MessageRole::Assistant => true,
            _ => false,
        };
        let replay = if is_assistant && m.tool_calls.len() > 0 && used < replays.len()
            && m.reasoning_content.is_none() {
            let s = replays[used].reasoning_content.clone();
            used = used + 1;
            Some(s)
        } else {
            None
        };
        assert(text::opt_text(replay) == replay_at(all, reps, i as int));
        let ghost prior = out@;
        let w = wire_one(m, replay);
        out.push(w);
        assert(chats(out@) =~= chats(prior).push(w@));
        assert(start + wires.take(i + 1) =~= (start + wires.take(i as int)).push(wires[i as int]));
        i = i + 1;
    }
    assert(wires.take(i as int) =~= wires);
}

fn find_missing(v: &Vec<ChatMessage>) -> (r: bool)
    ensures
        r == exists|i: int| 0 <= i < chats(v@).len() && lacks_reasoning(#[trigger] chats(v@)[i]),
{
    let mut i: usize = 0;
    while i < v.len()
        invariant
            i <= v.len(),
            forall|j: int| 0 <= j < i ==> !lacks_reasoning(#[trigger] chats(v@)[j]),
        decreases v.len() - i,
    {
        let m = &v[i];
        assert(chats(v@)[i as int] == m@);
        if text::str_eq(m.role.as_str(), "assistant") && m.tool_calls.is_some()
            && m.reasoning_content.is_none() {
            return true;
        }
        i = i + 1;
    }
    false
}

/// The messages that a request sends. Where reasoning that a model wants back is missing
/// the request is refused before anything is sent.
pub fn build_messages(request: &ModelRequest) -> (r: Result<Vec<ChatMessage>, ModelProviderError>)
    ensures
        if sendable(request@) {
            r matches Ok(v) && chats(v@) == request_messages(request@)
        } else {
            r matches Err(ModelProviderError::InvalidResponse(m)) && m@ == missing_reasoning()
        },
{
    let mut out: Vec<ChatMessage> = Vec::new();
    assert(chats(out@) =~= Seq::<ChatView>::empty());
    if let Some(sys) = &request.system_prompt {
        let m = ChatMessage {
            role: text::owned("system"),
            content: Some(sys.clone()),
            tool_calls: None,
            tool_call_id: None,
            reasoning_content: None,
        };
        out.push(m);
        assert(chats(out@) =~= seq![system_chat(sys@)]);
    }
    let none: Vec<ReasoningReplay> = Vec::new();
    let replays = match &request.replay_reasoning {
        Some(v) => v,
        None => &none,
    };
    assert(replays@.map_values(|x: ReasoningReplay| x@) =~= all_replays(request@));
    wire_conversation(&request.messages, replays, &mut out);
    assert(chats(out@) =~= request_messages(request@));
    if should_replay_reasoning(request.model.as_str()) {
        if find_missing(&out) {
            return Err(
                ModelProviderError::InvalidResponse(
                    text::owned(
                        "reasoning replay required for assistant tool-call messages but missing",
                    ),
                ),
            );
        }
    }
    Ok(out)
}

/// A tool on the wire.
pub open spec fn wire_tool(t: ToolSpecView) -> ChatToolView {
    match t {
        ToolSpecView::Function(f) => ChatToolView {
            tool_type: "function"@,
            name: f.name,
            description: f.description,
            parameters: f.parameters,
        },
    }
}

/// The tools that a request sends; none at all where the list is empty.
pub open spec fn request_tools(r: RequestView) -> Option<Seq<ChatToolView>> {
    if r.tools.len() > 0 {
        Some(r.tools.map_values(|t: ToolSpecView| wire_tool(t)))
    } else {
        None
    }
}

fn wire_tools(v: &Vec<ToolSpec>) -> (r: Option<Vec<ChatTool>>)
    ensures
        (match r {
            Some(c) => Some(chat_tools(c@)),
            None => None,
        }) == (if v@.len() > 0 {
            Some(model::tools(v@).map_values(|t: ToolSpecView| wire_tool(t)))
        } else {
            None
        }),
{
    if v.len() == 0 {
        return None;
    }
    let mut out: Vec<ChatTool> = Vec::new();
    let mut i: usize = 0;
    while i < v.len()
        invariant
            i <= v.len(),
            out.len() == i,
            forall|j: int| 0 <= j < i ==> (#[trigger] out@[j])@ == wire_tool(v@[j]@),
        decreases v.len() - i,
    {
        match &v[i] {
            ToolSpec::Function(f) => {
                out.push(
                    ChatTool {
                        tool_type: text::owned("function"),
                        name: f.name.clone(),
                        description: f.description.clone(),
                        parameters: f.parameters.clone(),
                    },
                );
            },
        }
        i = i + 1;
    }
    assert(chat_tools(out@) =~= model::tools(v@).map_values(|t: ToolSpecView| wire_tool(t)));
    Some(out)
}

/// The body of a request. A request that names no model goes to the default one.
pub fn build_request(default_model: &str, request: &ModelRequest) -> (r: Result<
    ChatCompletionRequest,
    ModelProviderError,
>)
    ensures
        if sendable(request@) {
            r matches Ok(b) && b.model@ == (if request@.model.len() == 0 {
                default_model@
            } else {
                request@.model
            }) && chats(b.messages@) == request_messages(request@) && (match b.tools {
                Some(t) => Some(chat_tools(t@)),
                None => None,
            }) == request_tools(request@) && b.max_tokens == request@.max_output_tokens
                && b.stream && b.include_usage
        } else {
            r matches Err(ModelProviderError::InvalidResponse(m)) && m@ == missing_reasoning()
        },
{
    proof {
        reveal_strlit("");
        assert(request@.model.len() == 0 ==> request@.model =~= ""@);
    }
    let model = if text::str_eq(request.model.as_str(), "") {
        text::owned(default_model)
    } else {
        request.model.clone()
    };
    let messages = match build_messages(request) {
        Ok(v) => v,
        Err(e) => {
            return Err(e);
        },
    };
    Ok(
        ChatCompletionRequest {
            model,
            messages,
            tools: wire_tools(&request.tools),
            max_tokens: request.max_output_tokens,
            stream: true,
            include_usage: true,
        },
    )
}

/// No message is lost or made up on the way to the wire, and each keeps its role and its
/// content.
pub proof fn law_conversation_survives(r: RequestView, i: int)
    requires
        0 <= i < r.messages.len(),
    ensures
        request_messages(r).len() == r.messages.len() + (if r.system_prompt is Some {
            1int
        } else {
            0
        }),
        ({
            let m = request_messages(r)[i + (if r.system_prompt is Some {
                1int
            } else {
                0
            })];
            m.role == role_name(r.messages[i].role) && m.content == r.messages[i].content
                && m.tool_call_id == r.messages[i].tool_call_id
        }),
{
}

/// How many messages of a conversation want reasoning of a replay.
pub open spec fn wanting(v: Seq<MessageView>) -> nat
    decreases v.len(),
{
    if v.len() == 0 {
        0
    } else {
        wanting(v.drop_last()) + if wants_replay(v.last()) {
            1nat
        } else {
            0
        }
    }
}

proof fn lemma_taken(v: Seq<MessageView>, available: nat)
    ensures
        taken(v, available) <= wanting(v),
    decreases v.len(),
{
    if v.len() > 0 {
        lemma_taken(v.drop_last(), available);
    }
}

proof fn lemma_wanting_before(v: Seq<MessageView>, j: int)
    requires
        0 <= j < v.len(),
        wants_replay(v[j]),
    ensures
        wanting(v.take(j)) < wanting(v),
    decreases v.len(),
{
    let w = v.drop_last();
    if j == v.len() - 1 {
        assert(v.take(j) =~= w);
    } else {
        lemma_wanting_before(w, j);
        assert(w.take(j) =~= v.take(j));
    }
}

/// A conversation with a replay for each message that wants one can be sent to any model.
pub proof fn law_enough_replays_suffice(r: RequestView)
    requires
        wanting(r.messages) <= all_replays(r).len(),
    ensures
        sendable(r),
{
    reveal_strlit("system");
    reveal_strlit("assistant");
    reveal_strlit("user");
    reveal_strlit("tool");
    assert("system"@.len() != "assistant"@.len());
    assert("user"@.len() != "assistant"@.len());
    assert("tool"@.len() != "assistant"@.len());
    assert forall|i: int| 0 <= i < request_messages(r).len() implies !lacks_reasoning(
        #[trigger] request_messages(r)[i],
    ) by {
        let offset = if r.system_prompt is Some {
            1int
        } else {
            0
        };
        if i >= offset {
            let j = i - offset;
            assert(request_messages(r)[i] == wire_message(
                r.messages[j],
                replay_at(r.messages, all_replays(r), j),
            ));
            if wants_replay(r.messages[j]) {
                lemma_taken(r.messages.take(j), all_replays(r).len());
                lemma_wanting_before(r.messages, j);
            }
        }
    }
}

/// The place of a message of a request on the wire: behind the system prompt, if there is
/// one.
pub open spec fn place_of(r: RequestView, i: int) -> int {
    if r.system_prompt is Some {
        i + 1
    } else {
        i
    }
}

/// The tool calls of a message are those on the wire, one for one and in their order: each
/// is a function call with its id, its tool as the name of the function, and its arguments.
pub proof fn law_calls_survive(r: RequestView, i: int)
    requires
        0 <= i < r.messages.len(),
    ensures
        ({
            let calls = r.messages[i].tool_calls;
            let sent = request_messages(r)[place_of(r, i)].tool_calls;
            &&& sent is Some <==> calls.len() > 0
            &&& sent matches Some(v) ==> v.len() == calls.len() && forall|j: int|
                0 <= j < v.len() ==> (#[trigger] v[j]).call_type == "function"@ && v[j].id
                    == calls[j].call_id && v[j].name == calls[j].tool_name && v[j].arguments
                    == calls[j].arguments
        }),
{
}

/// The tools of a request are those on the wire, one for one and in their order, each with
/// its name, its description and its parameters.
pub proof fn law_tools_survive(r: RequestView)
    ensures
        request_tools(r) is Some <==> r.tools.len() > 0,
        request_tools(r) matches Some(v) ==> v.len() == r.tools.len() && forall|i: int|
            0 <= i < v.len() ==> ((#[trigger] v[i]).tool_type == "function"@ && (
            r.tools[i] matches ToolSpecView::Function(f) && v[i].name == f.name && v[i].description
                == f.description && v[i].parameters == f.parameters)),
{
}

/// A system prompt is sent first, as a message of the system with that text and nothing else.
pub proof fn law_system_prompt_is_first(r: RequestView)
    requires
        r.system_prompt is Some,
    ensures
        ({
            let m = request_messages(r)[0];
            &&& m.role == "system"@
            &&& m.content == r.system_prompt
            &&& m.tool_calls is None
            &&& m.tool_call_id is None
            &&& m.reasoning_content is None
        }),
{
}

/// Each role has its own name on the wire.
pub proof fn law_roles_are_named(r: RequestView, i: int)
    requires
        0 <= i < r.messages.len(),
    ensures
        ({
            let name = request_messages(r)[place_of(r, i)].role;
            match r.messages[i].role {
                MessageRole::System => name == "system"@,
                MessageRole::User => name == "user"@,
                MessageRole::Assistant => name == "assistant"@,
                MessageRole::Tool => name == "tool"@,
            }
        }),
{
}

/// Reasoning goes where it belongs. A message with reasoning of its own keeps it; one that
/// calls no tools, or is not of the assistant, gets none; and the messages of the assistant
/// that call tools without reasoning get the replays in their order, as long as there are
/// any.
pub proof fn law_reasoning_goes_back(r: RequestView, i: int)
    requires
        0 <= i < r.messages.len(),
    ensures
        ({
            let m = r.messages[i];
            let sent = request_messages(r)[place_of(r, i)].reasoning_content;
            let replays = match r.replay_reasoning {
                Some(v) => v,
                None => Seq::empty(),
            };
            let before = wanting(r.messages.take(i));
            let wants = m.role == MessageRole::Assistant && m.tool_calls.len() > 0
                && m.reasoning_content is None;
            &&& !wants ==> sent == m.reasoning_content
            &&& wants && before < replays.len() ==> sent == Some(
                replays[before as int].reasoning_content,
            )
            &&& wants && before >= replays.len() ==> sent is None
        }),
{
    lemma_taken_exactly(r.messages.take(i), all_replays(r).len());
}

proof fn lemma_taken_exactly(v: Seq<MessageView>, available: nat)
    ensures
        taken(v, available) == (if wanting(v) < available {
            wanting(v)
        } else {
            available
        }),
    decreases v.len(),
{
    if v.len() > 0 {
        lemma_taken_exactly(v.drop_last(), available);
    }
}

/// How many messages want a replay: one more with each of the assistant that calls tools and
/// has no reasoning.
pub proof fn law_wanting_counts(v: Seq<MessageView>, m: MessageView)
    ensures
        wanting(Seq::<MessageView>::empty()) == 0,
        wanting(v.push(m)) == wanting(v) + (if m.role == MessageRole::Assistant && m.tool_calls.len()
            > 0 && m.reasoning_content is None {
            1nat
        } else {
            0nat
        }),
{
    assert(v.push(m).drop_last() =~= v);
}

/// A request is refused exactly where a reasoning model would get a message of the assistant
/// that calls tools without any reasoning.
pub proof fn law_only_missing_reasoning_is_refused(r: RequestView)
    ensures
        !sendable(r) <==> models::reasons(text::lowercase(r.model)) && exists|i: int|
            0 <= i < r.messages.len() && (#[trigger] r.messages[i]).role == MessageRole::Assistant
                && r.messages[i].tool_calls.len() > 0 && request_messages(r)[place_of(
                r,
                i,
            )].reasoning_content is None,
{
    reveal_strlit("system");
    reveal_strlit("assistant");
    reveal_strlit("user");
    reveal_strlit("tool");
    assert("system"@.len() != "assistant"@.len());
    assert("user"@.len() != "assistant"@.len());
    assert("tool"@.len() != "assistant"@.len());
    let sent = request_messages(r);
    if exists|i: int| 0 <= i < sent.len() && lacks_reasoning(#[trigger] sent[i]) {
        let i = choose|i: int| 0 <= i < sent.len() && lacks_reasoning(#[trigger] sent[i]);
        let j = if r.system_prompt is Some {
            i - 1
        } else {
            i
        };
        if j >= 0 {
            assert(place_of(r, j) == i);
            assert(r.messages[j].role == MessageRole::Assistant);
        }
    }
    if exists|i: int|
        0 <= i < r.messages.len() && (#[trigger] r.messages[i]).role == MessageRole::Assistant
            && r.messages[i].tool_calls.len() > 0 && sent[place_of(r, i)].reasoning_content is None {
        let i = choose|i: int|
            0 <= i < r.messages.len() && (#[trigger] r.messages[i]).role == MessageRole::Assistant
                && r.messages[i].tool_calls.len() > 0 && sent[place_of(
                r,
                i,
            )].reasoning_content is None;
        assert(lacks_reasoning(sent[place_of(r, i)]));
    }
}

/// What is seen of a chat tool call is all that it holds.
pub proof fn law_chat_tool_call_is_seen_whole(c: ChatToolCall)
    ensures
        c@.id == c.id@,
        c@.call_type == c.call_type@,
        c@.name == c.name@,
        c@.arguments == c.arguments@,
{
}

/// What is seen of a chat message is all that it holds.
pub proof fn law_chat_message_is_seen_whole(c: ChatMessage)
    ensures
        c@.role == c.role@,
        c@.content == text::opt_text(c.content),
        c@.tool_calls == (match c.tool_calls { Some(v) => Some(v@.map_values(|c: ChatToolCall| c@)), None => None, }),
        c@.tool_call_id == text::opt_text(c.tool_call_id),
        c@.reasoning_content == text::opt_text(c.reasoning_content),
{
}

/// What is seen of a chat tool is all that it holds.
pub proof fn law_chat_tool_is_seen_whole(c: ChatTool)
    ensures
        c@.tool_type == c.tool_type@,
        c@.name == c.name@,
        c@.description == c.description@,
        c@.parameters == json::json_text(c.parameters),
{
}

/// Messages and tools on the wire are seen one by one, in their order.
pub proof fn law_wire_lists_are_seen(m: Seq<ChatMessage>, t: Seq<ChatTool>, i: int)
    ensures
        chats(m).len() == m.len(),
        0 <= i < m.len() ==> chats(m)[i] == m[i]@,
        chat_tools(t).len() == t.len(),
        0 <= i < t.len() ==> chat_tools(t)[i] == t[i]@,
{
}

} // verus!
